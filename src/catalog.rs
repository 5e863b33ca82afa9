use vstd::prelude::*;
use vstd::string::*;
use crate::model::{Effect, ModeRow, Style};
use crate::table::{has_key, Row};

verus! {

/// Catalog rows to seed a store with.
pub struct Catalog {
    pub modes: Vec<ModeRow>,
    pub effects: Vec<Effect>,
    pub styles: Vec<Style>,
}

fn mode_row(id: &str, name: &str, description: &str, icon: &str) -> (r: ModeRow)
    ensures
        r.id@ == id@,
{
    ModeRow {
        id: String::from_str(id),
        name: String::from_str(name),
        description: String::from_str(description),
        icon: String::from_str(icon),
    }
}

/// An effect of `mode` at the standard prices.
fn effect_row(id: &str, mode: &ModeRow, name: &str, prompt: &str, thumbnail: &str) -> (r: Effect)
    ensures
        r.id@ == id@,
        r.mode_id@ == mode.id@,
        r.price_download == 300,
        r.price_print == 1000,
{
    Effect {
        id: String::from_str(id),
        mode_id: mode.id.clone(),
        name: String::from_str(name),
        prompt: String::from_str(prompt),
        thumbnail: String::from_str(thumbnail),
        price_download: 300,
        price_print: 1000,
    }
}

fn style_row(id: &str, name: &str, description: &str, icon: &str, prompt_template: &str) -> (r: Style)
    ensures
        r.id@ == id@,
        r.prompt_template@ == prompt_template@,
{
    Style {
        id: String::from_str(id),
        name: String::from_str(name),
        description: String::from_str(description),
        icon: String::from_str(icon),
        prompt_template: String::from_str(prompt_template),
    }
}

/// The demo catalog: six modes with two effects each, and six styles.
pub fn default_catalog() -> (r: Catalog)
    ensures
        r.modes@.len() == 6,
        r.effects@.len() == 12,
        r.styles@.len() == 6,
        forall|i: int| 0 <= i < r.effects@.len() ==> has_key(r.modes@, #[trigger] r.effects@[i].mode_id@),
        forall|i: int| 0 <= i < r.effects@.len() ==> #[trigger] r.effects@[i].price_download == 300
            && r.effects@[i].price_print == 1000,
{
    let cartoon = mode_row("cartoon", "卡通模式", "可爱的卡通风格照片", "cartoon.png");
    let movie = mode_row("movie", "电影海报", "经典电影海报风格", "movie.png");
    let anime = mode_row("anime", "二次元", "日式动漫风格", "anime.png");
    let cyberpunk = mode_row("cyberpunk", "赛博朋克", "未来科技风格", "cyberpunk.png");
    let traditional = mode_row("traditional", "古装风格", "中国传统服饰风格", "traditional.png");
    let age = mode_row("age", "年龄变化", "年龄老化或年轻化效果", "age.png");

    let mut effects: Vec<Effect> = Vec::new();
    effects.push(effect_row("cartoon-01", &cartoon, "卡通可爱", "cute cartoon style, bright colors, Disney animation", "cartoon-01.jpg"));
    effects.push(effect_row("cartoon-02", &cartoon, "卡通动漫", "anime cartoon style, Japanese manga", "cartoon-02.jpg"));
    effects.push(effect_row("movie-01", &movie, "动作海报", "action movie poster, dramatic lighting", "movie-01.jpg"));
    effects.push(effect_row("movie-02", &movie, "爱情海报", "romantic movie poster, soft lighting", "movie-02.jpg"));
    effects.push(effect_row("anime-01", &anime, "少女漫", "shoujo anime style, pink themes", "anime-01.jpg"));
    effects.push(effect_row("anime-02", &anime, "少年漫", "shounen anime style, action poses", "anime-02.jpg"));
    effects.push(effect_row("cyberpunk-01", &cyberpunk, "未来都市", "futuristic city, neon lights", "cyberpunk-01.jpg"));
    effects.push(effect_row("cyberpunk-02", &cyberpunk, "机械战士", "cyborg warrior, metal details", "cyberpunk-02.jpg"));
    effects.push(effect_row("traditional-01", &traditional, "汉服", "hanfu traditional Chinese clothing", "traditional-01.jpg"));
    effects.push(effect_row("traditional-02", &traditional, "古风", "ancient Chinese style, traditional hairstyle", "traditional-02.jpg"));
    effects.push(effect_row("age-01", &age, "童年", "childhood version, young and cute", "age-01.jpg"));
    effects.push(effect_row("age-02", &age, "老年", "elderly version, wise and mature", "age-02.jpg"));

    let mut modes: Vec<ModeRow> = Vec::new();
    modes.push(cartoon);
    modes.push(movie);
    modes.push(anime);
    modes.push(cyberpunk);
    modes.push(traditional);
    modes.push(age);

    let mut styles: Vec<Style> = Vec::new();
    styles.push(style_row("cartoon", "卡通", "将照片转换为可爱的卡通风格，使用鲜明的色彩和简洁的线条", "🎨", "将照片转换为卡通风格，{original_description}，使用鲜明的色彩和简洁的线条，呈现Disney风格的动画效果"));
    styles.push(style_row("movie", "电影海报", "经典电影海报风格，具有戏剧性的光线和构图", "🎬", "将照片转换为电影海报风格，{original_description}，具有戏剧性的光线和电影级构图，展现经典好莱坞电影海报的视觉效果"));
    styles.push(style_row("anime", "二次元", "日式动漫风格，使用动漫风格的眼睛和面部特征", "🌸", "将照片转换为动漫/二次元风格，{original_description}，使用动漫风格的眼睛和面部特征，呈现日式漫画的精致画风"));
    styles.push(style_row("cyberpunk", "赛博朋克", "未来科技风格，霓虹灯光和数字化效果", "🌃", "将照片转换为赛博朋克风格，{original_description}，带有霓虹灯光、数字化效果和未来科技元素，展现高科技都市氛围"));
    styles.push(style_row("watercolor", "水彩画", "艺术水彩画风格，柔和的色彩和流畅的笔触", "🎭", "将照片转换为水彩画风格，{original_description}，使用柔和的色彩和流畅的笔触，呈现艺术水彩画的优雅效果"));
    styles.push(style_row("oil-painting", "油画", "古典油画风格，丰富的色彩和纹理", "🖼️", "将照片转换为古典油画风格，{original_description}，使用丰富的色彩和油画纹理，展现欧洲古典绘画的艺术魅力"));

    proof {
        assert forall|i: int| 0 <= i < effects@.len() implies has_key(modes@, #[trigger] effects@[i].mode_id@) by {
            if i < 2 {
                assert(modes@[0].key() == effects@[i].mode_id@);
            } else if i < 4 {
                assert(modes@[1].key() == effects@[i].mode_id@);
            } else if i < 6 {
                assert(modes@[2].key() == effects@[i].mode_id@);
            } else if i < 8 {
                assert(modes@[3].key() == effects@[i].mode_id@);
            } else if i < 10 {
                assert(modes@[4].key() == effects@[i].mode_id@);
            } else {
                assert(modes@[5].key() == effects@[i].mode_id@);
            }
        }
    }
    Catalog { modes, effects, styles }
}

} // verus!
