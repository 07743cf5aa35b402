use vstd::prelude::*;

verus! {

/// The categories and styles offered to choose from.
#[derive(Debug, Clone)]
pub struct Presets {
    pub categories: Vec<String>,
    pub styles: Vec<String>,
}

/// The preset categories, in order.
pub open spec fn preset_categories() -> Seq<Seq<char>> {
    seq!["Email"@, "LinkedIn"@, "SEO"@, "Support"@, "Product description"@, "Resume/CV"@]
}

/// The preset styles, in order.
pub open spec fn preset_styles() -> Seq<Seq<char>> {
    seq!["Formal"@, "Friendly"@, "Concise"@, "Persuasive"@, "Technical"@, "Casual"@]
}

fn owned_list(items: &[&str]) -> (r: Vec<String>)
    ensures
        r@.len() == items@.len(),
        forall|i: int| 0 <= i < items@.len() ==> #[trigger] r@[i]@ == items@[i]@,
{
    let mut out: Vec<String> = Vec::new();
    let mut i: usize = 0;
    while i < items.len()
        invariant
            i <= items@.len(),
            out@.len() == i,
            forall|j: int| 0 <= j < i ==> #[trigger] out@[j]@ == items@[j]@,
        decreases items@.len() - i,
    {
        out.push(String::from_str(items[i]));
        i = i + 1;
    }
    out
}

/// The presets bundled with the application.
pub fn default_presets() -> (r: Presets)
    ensures
        r.categories@.len() == preset_categories().len(),
        forall|i: int| 0 <= i < preset_categories().len() ==> #[trigger] r.categories@[i]@
            == preset_categories()[i],
        r.styles@.len() == preset_styles().len(),
        forall|i: int| 0 <= i < preset_styles().len() ==> #[trigger] r.styles@[i]@
            == preset_styles()[i],
{
    let categories = owned_list(
        &["Email", "LinkedIn", "SEO", "Support", "Product description", "Resume/CV"],
    );
    let styles = owned_list(&["Formal", "Friendly", "Concise", "Persuasive", "Technical", "Casual"]);
    Presets { categories, styles }
}

/// The presets offered to the user interface.
pub fn get_presets() -> (r: Presets)
    ensures
        r.categories@.len() == preset_categories().len(),
        forall|i: int| 0 <= i < preset_categories().len() ==> #[trigger] r.categories@[i]@
            == preset_categories()[i],
        r.styles@.len() == preset_styles().len(),
        forall|i: int| 0 <= i < preset_styles().len() ==> #[trigger] r.styles@[i]@
            == preset_styles()[i],
{
    default_presets()
}

} // verus!
