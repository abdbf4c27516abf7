//! Built-in templates shipped with the software.
//!
//! Built-ins live in code (not in the user's templates file) so they are
//! always fresh, upgradable with software updates, and safe from accidental
//! corruption. Editing a built-in duplicates it under a new id.
use crate::template::{
    validation_error, widgets_problem_from, LcdTemplate, TemplateBackground, TemplateOrientation,
};
use crate::text::is_white_space;
use vstd::prelude::*;

verus! {

/// Id of the built-in cooler template.
pub const BUILTIN_COOLER_ID: &'static str = "cooler-default";

/// Id of the built-in double-gauge template.
pub const BUILTIN_DOUBLEGAUGE_ID: &'static str = "doublegauge-default";

/// Ids that are reserved for the built-in templates.
pub open spec fn is_reserved_id(id: Seq<char>) -> bool {
    id == BUILTIN_COOLER_ID@ || id == BUILTIN_DOUBLEGAUGE_ID@
}

/// Reserved ids cannot be deleted or overwritten by user templates.
pub fn is_builtin_id(id: &str) -> (r: bool)
    ensures
        r == is_reserved_id(id@),
{
    crate::text::str_equal(id, BUILTIN_COOLER_ID) || crate::text::str_equal(
        id,
        BUILTIN_DOUBLEGAUGE_ID,
    )
}

/// A built-in template: the given id, name and square size, a black
/// background, no widgets, portrait orientation.
pub open spec fn is_builtin_shape(t: LcdTemplate, id: Seq<char>, name: Seq<char>, size: u32) -> bool {
    &&& t.id@ == id
    &&& t.name@ == name
    &&& t.base_width == size
    &&& t.base_height == size
    &&& t.background == (TemplateBackground::Color { rgb: [0u8, 0u8, 0u8] })
    &&& t.widgets@.len() == 0
    &&& t.orientation == TemplateOrientation::Portrait
}

/// `t` is the built-in cooler template.
pub open spec fn is_builtin_cooler(t: LcdTemplate) -> bool {
    is_builtin_shape(t, BUILTIN_COOLER_ID@, "Cooler (default)"@, 480)
}

/// `t` is the built-in double-gauge template.
pub open spec fn is_builtin_doublegauge(t: LcdTemplate) -> bool {
    is_builtin_shape(t, BUILTIN_DOUBLEGAUGE_ID@, "Doublegauge (default)"@, 400)
}

/// `t` is the built-in template whose id is `id`.
pub open spec fn is_builtin_for(id: Seq<char>, t: LcdTemplate) -> bool {
    ||| id == BUILTIN_COOLER_ID@ && is_builtin_cooler(t)
    ||| id == BUILTIN_DOUBLEGAUGE_ID@ && is_builtin_doublegauge(t)
}

fn builtin_cooler() -> (r: LcdTemplate)
    ensures
        is_builtin_cooler(r),
{
    LcdTemplate {
        id: String::from_str(BUILTIN_COOLER_ID),
        name: String::from_str("Cooler (default)"),
        base_width: 480,
        base_height: 480,
        background: TemplateBackground::Color { rgb: [0, 0, 0] },
        widgets: Vec::new(),
        orientation: TemplateOrientation::Portrait,
    }
}

fn builtin_doublegauge() -> (r: LcdTemplate)
    ensures
        is_builtin_doublegauge(r),
{
    LcdTemplate {
        id: String::from_str(BUILTIN_DOUBLEGAUGE_ID),
        name: String::from_str("Doublegauge (default)"),
        base_width: 400,
        base_height: 400,
        background: TemplateBackground::Color { rgb: [0, 0, 0] },
        widgets: Vec::new(),
        orientation: TemplateOrientation::Portrait,
    }
}

/// All built-in templates, cooler first; merged with the user templates
/// when templates are resolved.
pub fn builtin_templates() -> (r: Vec<LcdTemplate>)
    ensures
        r@.len() == 2,
        is_builtin_cooler(r@[0]),
        is_builtin_doublegauge(r@[1]),
{
    let mut r: Vec<LcdTemplate> = Vec::new();
    r.push(builtin_cooler());
    r.push(builtin_doublegauge());
    r
}

/// The built-in template with this id; `None` for an id that is not reserved.
pub fn builtin_template(id: &str) -> (r: Option<LcdTemplate>)
    ensures
        r is Some <==> is_reserved_id(id@),
        r matches Some(t) ==> is_builtin_for(id@, t),
{
    if crate::text::str_equal(id, BUILTIN_COOLER_ID) {
        Some(builtin_cooler())
    } else if crate::text::str_equal(id, BUILTIN_DOUBLEGAUGE_ID) {
        Some(builtin_doublegauge())
    } else {
        None
    }
}

/// The two reserved ids differ, so an id names at most one built-in.
pub proof fn lemma_reserved_ids_distinct()
    ensures
        BUILTIN_COOLER_ID@ != BUILTIN_DOUBLEGAUGE_ID@,
{
    reveal_strlit("cooler-default");
    reveal_strlit("doublegauge-default");
    assert(BUILTIN_COOLER_ID@.len() != BUILTIN_DOUBLEGAUGE_ID@.len());
}

/// Every built-in template passes `LcdTemplate::validate`.
pub proof fn lemma_builtin_templates_valid(t: LcdTemplate)
    requires
        is_builtin_cooler(t) || is_builtin_doublegauge(t),
    ensures
        validation_error(t) is None,
{
    reveal_strlit("cooler-default");
    reveal_strlit("doublegauge-default");
    reveal_strlit("Cooler (default)");
    reveal_strlit("Doublegauge (default)");
    assert(!is_white_space(t.id@[0]));
    assert(!is_white_space(t.name@[0]));
    assert(widgets_problem_from(t.id@, t.widgets@, 0) is None);
}

} // verus!
