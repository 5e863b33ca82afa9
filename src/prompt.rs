use vstd::prelude::*;
use crate::text::{replace_all, substitute};

verus! {

/// The slot in a style's prompt template that receives the effect's prompt.
pub const DESCRIPTION_SLOT: &'static str = "{original_description}";

/// A style template with every description slot filled by `description`.
pub open spec fn styled_prompt(template: Seq<char>, description: Seq<char>) -> Seq<char> {
    substitute(template, DESCRIPTION_SLOT@, description)
}

/// The prompt sent for generation: the effect's prompt, or, when a style
/// template is given, that template with the effect's prompt in its slot.
pub open spec fn final_prompt_of(effect_prompt: Seq<char>, template: Option<Seq<char>>) -> Seq<char> {
    match template {
        Some(t) => styled_prompt(t, effect_prompt),
        None => effect_prompt,
    }
}

/// Fills every description slot of `template` with `description`.
pub fn apply_template(template: &str, description: &str) -> (r: String)
    ensures
        r@ == styled_prompt(template@, description@),
{
    proof {
        reveal_strlit("{original_description}");
    }
    replace_all(template, DESCRIPTION_SLOT, description)
}

} // verus!
