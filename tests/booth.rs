use photobooth::catalog::default_catalog;
use photobooth::commands::{
    create_order, create_payment, get_effects, query_payment, save_original_photo,
    update_order_status,
};
use photobooth::decimal::decimal;
use photobooth::error::{BoothError, Missing, Setting};
use photobooth::generation::{
    ApiReply, Attempt, ClientAction, MiniMaxService, PLACEHOLDER_IMAGE,
};
use photobooth::model::{OrderStatus, OrderType, SessionStatus, Step};
use photobooth::orchestrator::{Begin, GenerationOutcome};
use photobooth::payment::WeChatService;
use photobooth::prompt::apply_template;
use photobooth::store::Store;
use photobooth::text::replace_all;

fn seeded_store() -> Store {
    let mut store = Store::new();
    store.seed(&default_catalog());
    store
}

fn open(store: &mut Store, id: &str, mode: &str, effect: &str) {
    store
        .insert_session(id.to_string(), format!("t-{}", id), mode, effect, 1000)
        .unwrap();
}

fn wechat() -> WeChatService {
    WeChatService::new(
        Some("app".to_string()),
        Some("mch".to_string()),
        Some("key".to_string()),
        None,
    )
    .unwrap()
}

#[test]
fn session_status_names_round_trip() {
    let all = [
        (SessionStatus::SelectingMode, "selecting_mode"),
        (SessionStatus::SelectingEffect, "selecting_effect"),
        (SessionStatus::Capturing, "capturing"),
        (SessionStatus::Processing, "processing"),
        (SessionStatus::Previewing, "previewing"),
        (SessionStatus::Completed, "completed"),
    ];
    for (st, name) in all {
        assert_eq!(st.to_string(), name);
        assert_eq!(SessionStatus::from_str(name), Ok(st));
    }
    assert_eq!(SessionStatus::from_str("Processing"), Err(BoothError::InvalidArgument));
}

#[test]
fn order_and_step_names_round_trip() {
    assert_eq!(OrderType::Download.to_string(), "download");
    assert_eq!(OrderType::from_str("print"), Ok(OrderType::Print));
    assert_eq!(OrderType::from_str("bogus"), Err(BoothError::InvalidArgument));
    assert_eq!(OrderStatus::Refunded.to_string(), "refunded");
    assert_eq!(OrderStatus::from_str("paid"), Ok(OrderStatus::Paid));
    assert_eq!(OrderStatus::from_str(""), Err(BoothError::InvalidArgument));
    assert_eq!(Step::SelectEffect.to_string(), "select_effect");
    assert_eq!(Step::from_str("download"), Ok(Step::Download));
    assert_eq!(Step::from_str("home "), Err(BoothError::InvalidArgument));
}

#[test]
fn template_slot_is_filled() {
    assert_eq!(apply_template("X {original_description} Y", "P"), "X P Y");
    assert_eq!(apply_template("no slot", "P"), "no slot");
    assert_eq!(
        apply_template("{original_description}{original_description}", "ab"),
        "abab"
    );
}

#[test]
fn replace_all_takes_matches_left_to_right() {
    assert_eq!(replace_all("aaa", "aa", "b"), "ba");
    assert_eq!(replace_all("", "x", "y"), "");
    assert_eq!(replace_all("卡通，{original_description}。", "{original_description}", "猫"), "卡通，猫。");
}

#[test]
fn decimal_forms() {
    assert_eq!(decimal(0), "0");
    assert_eq!(decimal(1234567), "1234567");
    assert_eq!(decimal(-45), "-45");
    assert_eq!(decimal(i64::MIN), "-9223372036854775808");
}

#[test]
fn default_catalog_seeds_six_modes_with_two_effects_each() {
    let store = seeded_store();
    let modes = store.get_all_modes();
    assert_eq!(modes.len(), 6);
    for m in &modes {
        assert_eq!(m.effects.len(), 2);
        for e in &m.effects {
            assert_eq!(e.mode_id, m.id);
            assert_eq!(e.price_download, 300);
            assert_eq!(e.price_print, 1000);
        }
    }
    assert_eq!(store.get_all_styles().len(), 6);
    let anime = store.get_mode_by_id("anime").unwrap();
    assert_eq!(anime.effects[0].id, "anime-01");
    assert!(store.get_mode_by_id("nope").is_none());
}

#[test]
fn seeding_twice_keeps_one_row_per_id() {
    let mut store = seeded_store();
    store.seed(&default_catalog());
    assert_eq!(store.get_all_modes().len(), 6);
    assert_eq!(store.get_all_styles().len(), 6);
    assert_eq!(store.get_effects_by_mode("cartoon").len(), 2);
}

#[test]
fn generate_prompt_fills_style_template() {
    let store = seeded_store();
    let p = store.generate_prompt("movie", "P").unwrap();
    assert!(p.contains("，P，"));
    assert!(!p.contains("{original_description}"));
    assert_eq!(
        store.generate_prompt("missing", "P"),
        Err(BoothError::NotFound(Missing::Style))
    );
}

#[test]
fn no_style_uses_effect_prompt_verbatim() {
    let mut store = seeded_store();
    open(&mut store, "s1", "cartoon", "cartoon-02");
    match store.begin_generation("s1", None).unwrap() {
        Begin::Generate(p) => assert_eq!(p, "anime cartoon style, Japanese manga"),
        Begin::Unchanged(_) => panic!("expected generation"),
    }
    assert_eq!(store.get_session("s1").unwrap().status, SessionStatus::Processing);
}

#[test]
fn effect_prompt_without_style_is_final_prompt() {
    let mut store = Store::new();
    let mut catalog = default_catalog();
    catalog.effects[0].prompt = "P".to_string();
    store.seed(&catalog);
    open(&mut store, "s1", "cartoon", "cartoon-01");
    match store.begin_generation("s1", None).unwrap() {
        Begin::Generate(p) => assert_eq!(p, "P"),
        Begin::Unchanged(_) => panic!("expected generation"),
    }
}

#[test]
fn style_template_wraps_effect_prompt() {
    let mut store = Store::new();
    let mut catalog = default_catalog();
    catalog.styles[0].id = "x".to_string();
    catalog.styles[0].prompt_template = "X {original_description} Y".to_string();
    catalog.effects[0].prompt = "P".to_string();
    store.seed(&catalog);
    open(&mut store, "s1", "cartoon", "cartoon-01");
    match store.begin_generation("s1", Some("x")).unwrap() {
        Begin::Generate(p) => assert_eq!(p, "X P Y"),
        Begin::Unchanged(_) => panic!("expected generation"),
    }
}

#[test]
fn second_generation_request_returns_session_unchanged() {
    let mut store = seeded_store();
    open(&mut store, "s1", "movie", "movie-01");
    assert!(matches!(store.begin_generation("s1", None), Ok(Begin::Generate(_))));
    let before = store.get_session("s1").unwrap();
    match store.begin_generation("s1", Some("anime")).unwrap() {
        Begin::Unchanged(s) => {
            assert_eq!(s.status, SessionStatus::Processing);
            assert_eq!(s.updated_at, before.updated_at);
            assert!(s.style_id.is_none());
        }
        Begin::Generate(_) => panic!("client must not be called twice"),
    }
}

#[test]
fn begin_generation_reports_missing_records() {
    let mut store = seeded_store();
    assert_eq!(
        store.begin_generation("none", None).unwrap_err(),
        BoothError::NotFound(Missing::Session)
    );
    open(&mut store, "a", "nomode", "cartoon-01");
    assert_eq!(store.begin_generation("a", None).unwrap_err(), BoothError::NotFound(Missing::Mode));
    open(&mut store, "b", "movie", "cartoon-01");
    assert_eq!(store.begin_generation("b", None).unwrap_err(), BoothError::NotFound(Missing::Effect));
    open(&mut store, "c", "movie", "movie-02");
    assert_eq!(
        store.begin_generation("c", Some("nostyle")).unwrap_err(),
        BoothError::NotFound(Missing::Style)
    );
    assert_eq!(store.get_session("c").unwrap().status, SessionStatus::SelectingMode);
}

#[test]
fn timeout_stores_placeholder() {
    let mut store = seeded_store();
    open(&mut store, "s1", "age", "age-01");
    store.begin_generation("s1", None).unwrap();
    let s = store
        .finish_generation("s1", "PHOTO", None, GenerationOutcome::TimedOut)
        .unwrap();
    assert_eq!(s.generated_photo.as_deref(), Some(PLACEHOLDER_IMAGE));
    assert_eq!(s.original_photo.as_deref(), Some("PHOTO"));
    assert_eq!(s.status, SessionStatus::Previewing);
}

#[test]
fn generated_image_and_style_are_stored() {
    let mut store = seeded_store();
    open(&mut store, "s1", "age", "age-02");
    store.begin_generation("s1", Some("watercolor")).unwrap();
    let s = store
        .finish_generation("s1", "PHOTO", Some("watercolor"), GenerationOutcome::Generated("IMG".to_string()))
        .unwrap();
    assert_eq!(s.generated_photo.as_deref(), Some("IMG"));
    assert_eq!(s.style_id.as_deref(), Some("watercolor"));
    assert_eq!(store.get_session("s1").unwrap().status, SessionStatus::Previewing);
}

#[test]
fn client_failure_leaves_session_processing() {
    let mut store = seeded_store();
    open(&mut store, "s1", "age", "age-02");
    store.begin_generation("s1", None).unwrap();
    assert_eq!(
        store.finish_generation("s1", "PHOTO", None, GenerationOutcome::Failed).unwrap_err(),
        BoothError::GenerationFailed
    );
    let s = store.get_session("s1").unwrap();
    assert_eq!(s.status, SessionStatus::Processing);
    assert!(s.generated_photo.is_none());
    assert_eq!(
        store
            .finish_generation("zz", "PHOTO", None, GenerationOutcome::TimedOut)
            .unwrap_err(),
        BoothError::NotFound(Missing::Session)
    );
}

#[test]
fn mock_client_yields_placeholder_and_previewing() {
    let client = MiniMaxService::new(String::new(), "");
    assert!(client.use_mock);
    let mut store = seeded_store();
    open(&mut store, "s1", "anime", "anime-01");
    let prompt = match store.begin_generation("s1", None).unwrap() {
        Begin::Generate(p) => p,
        Begin::Unchanged(_) => panic!("expected generation"),
    };
    let image = match client.start("PHOTO", &prompt) {
        ClientAction::Finish(Ok(x)) => x,
        _ => panic!("mock mode sends nothing"),
    };
    let s = store
        .finish_generation("s1", "PHOTO", None, GenerationOutcome::Generated(image))
        .unwrap();
    assert_eq!(s.generated_photo.as_deref(), Some(PLACEHOLDER_IMAGE));
    assert_eq!(s.status, SessionStatus::Previewing);
}

#[test]
fn mock_mode_selection() {
    assert!(MiniMaxService::new("real".to_string(), "true").use_mock);
    assert!(MiniMaxService::new("your-api-key-here".to_string(), "").use_mock);
    assert!(MiniMaxService::new("placeholder-1".to_string(), "false").use_mock);
    assert!(!MiniMaxService::new("sk-123".to_string(), "false").use_mock);
    assert!(MiniMaxService::default().use_mock);
}

#[test]
fn client_fallback_chain() {
    let client = MiniMaxService::new("sk-1".to_string(), "");
    let req = match client.start("PH", "prompt") {
        ClientAction::Send(Attempt::ImageToImage, req) => req,
        _ => panic!("expected photo-guided request"),
    };
    assert_eq!(req.model, "image-01");
    assert_eq!(req.aspect_ratio, "3:4");
    assert_eq!(req.response_format, "base64");
    let subject = req.subject_reference.unwrap();
    assert_eq!(subject.kind, "character");
    assert_eq!(subject.image_file, "data:image/jpeg;base64,PH");
    match client.on_reply(Attempt::ImageToImage, ApiReply::Failed, "PH", "prompt") {
        ClientAction::Send(Attempt::TextToImage, r) => {
            assert!(r.subject_reference.is_none());
            assert_eq!(r.prompt, "prompt");
        }
        _ => panic!("expected prompt-only fallback"),
    }
    match client.on_reply(Attempt::TextToImage, ApiReply::Failed, "PH", "prompt") {
        ClientAction::Finish(Ok(x)) => assert_eq!(x, PLACEHOLDER_IMAGE),
        _ => panic!("expected placeholder"),
    }
    match client.on_reply(Attempt::TextToImage, ApiReply::Image("I".to_string()), "PH", "prompt") {
        ClientAction::Finish(Ok(x)) => assert_eq!(x, "I"),
        _ => panic!("expected image"),
    }
    match client.on_reply(Attempt::ImageToImage, ApiReply::Unreadable, "PH", "prompt") {
        ClientAction::Finish(Err(e)) => assert_eq!(e, BoothError::GenerationFailed),
        _ => panic!("expected failure"),
    }
    assert_eq!(client.endpoint(), "https://api.minimaxi.com/v1/image_generation");
    assert_eq!(client.authorization(), "Bearer sk-1");
    assert_eq!(client.generate_placeholder_image(), PLACEHOLDER_IMAGE);
}

#[test]
fn bogus_order_type_creates_no_order() {
    let mut store = seeded_store();
    open(&mut store, "s1", "anime", "anime-01");
    assert_eq!(
        create_payment(&mut store, &wechat(), "s1", "bogus", 300).unwrap_err(),
        BoothError::InvalidArgument
    );
    assert!(store.get_orders("s1").is_empty());
    assert_eq!(
        create_order(&mut store, "s1", "bogus", 300).unwrap_err(),
        BoothError::InvalidArgument
    );
    assert!(store.get_orders("s1").is_empty());
}

#[test]
fn create_payment_makes_pending_order_and_code() {
    let mut store = seeded_store();
    let (order_id, code) = create_payment(&mut store, &wechat(), "s1", "print", 1000).unwrap();
    let prefix = format!("weixin://wxpay/bizpayurl?pr=prepay_{}_", order_id);
    assert!(code.starts_with(&prefix));
    assert!(code[prefix.len()..].chars().all(|c| c.is_ascii_digit()));
    let o = store.get_order(&order_id).unwrap();
    assert_eq!(o.order_type, OrderType::Print);
    assert_eq!(o.status, OrderStatus::Pending);
    assert_eq!(o.amount, 1000);
    assert_eq!(query_payment(&wechat(), &order_id).unwrap(), "SUCCESS");
}

#[test]
fn order_round_trip_and_handle() {
    let mut store = seeded_store();
    let created = store
        .insert_order("o1".to_string(), "s1", OrderType::Download, 300, 77)
        .unwrap();
    let read = store.get_order("o1").unwrap();
    assert_eq!(read.id, created.id);
    assert_eq!(read.session_id, "s1");
    assert_eq!(read.order_type, OrderType::Download);
    assert_eq!(read.amount, 300);
    assert_eq!(read.status, OrderStatus::Pending);
    assert_eq!(read.created_at, 77);
    assert!(read.wechat_order_id.is_none());
    assert!(read.payment_time.is_none());
    store.set_order_status("o1", OrderStatus::Paid, Some("wx-9".to_string()), 99);
    let paid = store.get_order("o1").unwrap();
    assert_eq!(paid.wechat_order_id.as_deref(), Some("wx-9"));
    assert_eq!(paid.payment_time, Some(99));
    assert_eq!(paid.created_at, 77);
    update_order_status(&mut store, "o1", "cancelled", None).unwrap();
    let cancelled = store.get_order("o1").unwrap();
    assert_eq!(cancelled.status, OrderStatus::Cancelled);
    assert!(cancelled.payment_time.is_none());
    assert_eq!(
        update_order_status(&mut store, "o1", "lost", None).unwrap_err(),
        BoothError::InvalidArgument
    );
    assert_eq!(
        store.insert_order("o1".to_string(), "s2", OrderType::Print, 1, 1).unwrap_err(),
        BoothError::DuplicateId
    );
}

#[test]
fn orders_listed_newest_first() {
    let mut store = Store::new();
    store.insert_order("a".to_string(), "s", OrderType::Download, 1, 10).unwrap();
    store.insert_order("b".to_string(), "s", OrderType::Download, 2, 30).unwrap();
    store.insert_order("x".to_string(), "other", OrderType::Print, 3, 50).unwrap();
    store.insert_order("c".to_string(), "s", OrderType::Print, 4, 20).unwrap();
    store.insert_order("d".to_string(), "s", OrderType::Print, 5, 30).unwrap();
    let ids: Vec<String> = store.get_orders("s").into_iter().map(|o| o.id).collect();
    assert_eq!(ids, vec!["b", "d", "c", "a"]);
}

#[test]
fn sessions_open_with_fresh_ids() {
    let mut store = seeded_store();
    let a = store.create_session("cartoon", "cartoon-01").unwrap();
    let b = store.create_session("cartoon", "cartoon-01").unwrap();
    assert_ne!(a.id, b.id);
    assert_eq!(a.id.len(), 36);
    assert_eq!(a.status, SessionStatus::SelectingMode);
    assert!(a.created_at > 1_600_000_000);
    assert_eq!(a.created_at, a.updated_at);
    assert!(store.get_session(&a.id).is_some());
    let o = store.create_order(&a.id, OrderType::Download, 300).unwrap();
    assert_eq!(o.id.len(), 36);
    assert!(o.created_at > 1_600_000_000);
}

#[test]
fn duplicate_session_id_is_refused() {
    let mut store = Store::new();
    open(&mut store, "s1", "m", "e");
    assert_eq!(
        store.insert_session("s1".to_string(), "other".to_string(), "m", "e", 5).unwrap_err(),
        BoothError::DuplicateId
    );
    assert_eq!(
        store.insert_session("s2".to_string(), "t-s1".to_string(), "m", "e", 5).unwrap_err(),
        BoothError::DuplicateId
    );
    assert!(store.get_session("s2").is_none());
}

#[test]
fn session_updates() {
    let mut store = seeded_store();
    open(&mut store, "s1", "movie", "movie-01");
    let s = save_original_photo(&mut store, "s1", "RAW").unwrap();
    assert_eq!(s.original_photo.as_deref(), Some("RAW"));
    assert!(s.updated_at >= 1000);
    store.save_generated_photo("s1", "GEN");
    store.update_session_style("s1", "anime");
    store.update_session_status("s1", SessionStatus::Completed);
    let s = store.get_session("s1").unwrap();
    assert_eq!(s.generated_photo.as_deref(), Some("GEN"));
    assert_eq!(s.style_id.as_deref(), Some("anime"));
    assert_eq!(s.status, SessionStatus::Completed);
    assert_eq!(s.created_at, 1000);
    assert_eq!(
        save_original_photo(&mut store, "nope", "RAW").unwrap_err(),
        BoothError::NotFound(Missing::Session)
    );
}

#[test]
fn effects_of_unknown_mode_not_found() {
    let store = seeded_store();
    assert_eq!(get_effects(&store, "cyberpunk").unwrap().len(), 2);
    assert_eq!(get_effects(&store, "x").unwrap_err(), BoothError::NotFound(Missing::Mode));
    assert_eq!(store.get_effect("age-02").unwrap().mode_id, "age");
    assert_eq!(store.get_style_by_id("oil-painting").unwrap().icon, "🖼️");
}

#[test]
fn payment_settings_required() {
    assert_eq!(
        WeChatService::new(None, Some("m".to_string()), Some("k".to_string()), None).err(),
        Some(BoothError::MissingSetting(Setting::AppId))
    );
    assert_eq!(
        WeChatService::new(Some("a".to_string()), None, Some("k".to_string()), None).err(),
        Some(BoothError::MissingSetting(Setting::MerchantId))
    );
    assert_eq!(
        WeChatService::new(Some("a".to_string()), Some("m".to_string()), None, None).err(),
        Some(BoothError::MissingSetting(Setting::ApiKey))
    );
    let w = wechat();
    assert_eq!(w.notify_url, "");
    assert_eq!(w.create_qr_code_url("p1"), "weixin://wxpay/bizpayurl?pr=p1");
    assert_eq!(w.prepay_id_at("o", 1700000000123), "prepay_o_1700000000123");
    let (handle, code) = w.create_order("o9", 5, "d").unwrap();
    assert!(handle.starts_with("prepay_o9_"));
    assert_eq!(code, format!("weixin://wxpay/bizpayurl?pr={}", handle));
}

#[test]
fn error_messages() {
    assert_eq!(BoothError::NotFound(Missing::Session).message(), "Session not found");
    assert_eq!(BoothError::MissingSetting(Setting::ApiKey).message(), "WECHAT_API_KEY not set");
}
