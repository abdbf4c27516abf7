//! Persistence and resolution of LCD templates.
//!
//! The user's templates live in `lcd_templates.json` next to the config
//! file. Built-in templates are never written to that file; they are merged
//! in when templates are listed or resolved, and a user template that
//! carries a reserved id is dropped on load and on save.
//!
//! Reading, parsing and writing the file stay with the caller: this module
//! decides what goes in and what comes out.
use crate::sensors::opt_view;
use crate::template::{same_template, LcdTemplate};
use crate::template_defaults::{
    builtin_template, builtin_templates, is_builtin_doublegauge, is_builtin_cooler, is_builtin_for,
    is_builtin_id, is_reserved_id,
};
use vstd::prelude::*;

verus! {

/// Name of the user templates file.
pub const TEMPLATES_FILE_NAME: &'static str = "lcd_templates.json";

/// The text of `Path::new(path).parent()` on this platform, if the path has
/// a parent.
pub uninterp spec fn path_parent(path: Seq<char>) -> Option<Seq<char>>;

/// The text of `Path::new(base).join(name)` on this platform.
pub uninterp spec fn path_join(base: Seq<char>, name: Seq<char>) -> Seq<char>;

/// `std::path::Path::parent`, on the text of a path. The contract names the
/// result (`path_parent`) and adds the one documented fact used here: the
/// empty path has no parent. How the platform splits components is not
/// stated.
#[verifier::external_body]
fn parent_path(path: &str) -> (r: Option<String>)
    ensures
        opt_view(r) == path_parent(path@),
        path@.len() == 0 ==> r is None,
{
    match std::path::Path::new(path).parent() {
        Some(p) => Some(p.to_string_lossy().into_owned()),
        None => None,
    }
}

/// `std::path::Path::join`, on the text of two paths. The contract names the
/// result (`path_join`); the platform's joining rules are not stated.
#[verifier::external_body]
fn join_path(base: &str, name: &str) -> (r: String)
    ensures
        r@ == path_join(base@, name@),
{
    std::path::Path::new(base).join(name).to_string_lossy().into_owned()
}

/// The directory that holds the templates file: the parent of the config
/// file, or `.` when it has none.
pub open spec fn templates_dir_text(parent: Option<Seq<char>>) -> Seq<char> {
    match parent {
        Some(p) => p,
        None => "."@,
    }
}

/// The directory for the templates file, given the config file's parent.
pub fn templates_dir(parent: Option<String>) -> (r: String)
    ensures
        r@ == templates_dir_text(opt_view(parent)),
{
    match parent {
        Some(p) => p,
        None => String::from_str("."),
    }
}

/// Derives the templates file path from the config file path:
/// `lcd_templates.json` in the config file's directory.
pub fn templates_path_for(config_path: &str) -> (r: String)
    ensures
        r@ == path_join(templates_dir_text(path_parent(config_path@)), TEMPLATES_FILE_NAME@),
{
    let dir = templates_dir(parent_path(config_path));
    join_path(dir.as_str(), TEMPLATES_FILE_NAME)
}

/// Contents of `lcd_templates.json`.
#[derive(Debug)]
pub struct TemplateFile {
    pub templates: Vec<LcdTemplate>,
}

/// What became of reading and parsing the templates file.
#[derive(Debug)]
pub enum TemplateFileRead {
    /// There is no file.
    Missing,
    /// The file exists but could not be read.
    Unreadable,
    /// The file was read but is not a templates file.
    Malformed,
    /// The file's contents.
    Parsed(TemplateFile),
}

/// A template that may live in the user file: its id is not reserved.
pub open spec fn is_user_template(t: LcdTemplate) -> bool {
    !is_reserved_id(t.id@)
}

/// The templates of `ts` whose ids are not reserved, in their order.
pub open spec fn user_templates(ts: Seq<LcdTemplate>) -> Seq<LcdTemplate> {
    ts.filter(|t: LcdTemplate| is_user_template(t))
}

proof fn lemma_user_templates_step(ts: Seq<LcdTemplate>)
    requires
        ts.len() > 0,
    ensures
        user_templates(ts) == (if is_user_template(ts.last()) {
            user_templates(ts.drop_last()).push(ts.last())
        } else {
            user_templates(ts.drop_last())
        }),
{
    reveal_with_fuel(Seq::filter, 1);
}

/// Two lists hold the same templates in the same order.
pub open spec fn same_templates(a: Seq<LcdTemplate>, b: Seq<LcdTemplate>) -> bool {
    a.len() == b.len() && forall|i: int|
        0 <= i < a.len() ==> same_template(#[trigger] a[i], b[i])
}

/// The user templates that loading yields: none when the file is missing,
/// unreadable or malformed (the daemon still starts, with the built-ins),
/// else the file's templates without those that shadow a built-in id.
pub open spec fn loaded_templates(read: TemplateFileRead) -> Seq<LcdTemplate> {
    match read {
        TemplateFileRead::Parsed(file) => user_templates(file.templates@),
        _ => Seq::empty(),
    }
}

/// The user templates to keep from what reading the templates file gave.
pub fn templates_from_file_read(read: TemplateFileRead) -> (r: Vec<LcdTemplate>)
    ensures
        r@ == loaded_templates(read),
{
    match read {
        TemplateFileRead::Parsed(file) => {
            let mut rest = file.templates;
            let ghost all = rest@;
            let mut kept: Vec<LcdTemplate> = Vec::new();
            let mut i: usize = 0;
            let total = rest.len();
            assert(all.len() == total);
            while rest.len() > 0
                invariant
                    all.len() <= usize::MAX,
                    i <= all.len(),
                    rest@ == all.skip(i as int),
                    kept@ == user_templates(all.take(i as int)),
                decreases rest@.len(),
            {
                let t = rest.remove(0);
                assert(all.take(i + 1).drop_last() =~= all.take(i as int));
                assert(all.take(i + 1).last() == t);
                proof {
                    lemma_user_templates_step(all.take(i + 1));
                }
                assert(rest@ =~= all.skip(i + 1));
                if !is_builtin_id(t.id.as_str()) {
                    kept.push(t);
                }
                i = i + 1;
            }
            assert(all.take(i as int) =~= all);
            kept
        },
        _ => Vec::new(),
    }
}

/// The file that saving writes: the user templates of `templates`, cloned,
/// so that the file only ever holds user content.
pub fn template_file_for_save(templates: &[LcdTemplate]) -> (r: TemplateFile)
    ensures
        same_templates(r.templates@, user_templates(templates@)),
{
    let mut kept: Vec<LcdTemplate> = Vec::new();
    let n = templates.len();
    let mut i: usize = 0;
    while i < n
        invariant
            n == templates@.len(),
            i <= n,
            same_templates(kept@, user_templates(templates@.take(i as int))),
        decreases n - i,
    {
        assert(templates@.take(i + 1).drop_last() =~= templates@.take(i as int));
        assert(templates@.take(i + 1).last() == templates@[i as int]);
        proof {
            lemma_user_templates_step(templates@.take(i + 1));
        }
        if !is_builtin_id(templates[i].id.as_str()) {
            kept.push(templates[i].clone());
        }
        i = i + 1;
    }
    assert(templates@.take(n as int) =~= templates@);
    TemplateFile { templates: kept }
}

/// The full template list shown to the user: built-ins first (cooler,
/// double gauge), then the user templates.
pub fn all_templates(user: &[LcdTemplate]) -> (r: Vec<LcdTemplate>)
    ensures
        r@.len() == user@.len() + 2,
        is_builtin_cooler(r@[0]),
        is_builtin_doublegauge(r@[1]),
        forall|k: int| 0 <= k < user@.len() ==> same_template(#[trigger] r@[k + 2], user@[k]),
{
    let mut out = builtin_templates();
    let n = user.len();
    let mut i: usize = 0;
    while i < n
        invariant
            n == user@.len(),
            i <= n,
            out@.len() == i + 2,
            is_builtin_cooler(out@[0]),
            is_builtin_doublegauge(out@[1]),
            forall|k: int| 0 <= k < i ==> same_template(#[trigger] out@[k + 2], user@[k]),
        decreases n - i,
    {
        out.push(user[i].clone());
        i = i + 1;
    }
    out
}

/// Index of the first template of `ts` at or after `k` whose id is `id`.
pub open spec fn first_with_id(ts: Seq<LcdTemplate>, id: Seq<char>, k: nat) -> Option<nat>
    decreases ts.len() - k,
{
    if k >= ts.len() {
        None
    } else if ts[k as int].id@ == id {
        Some(k)
    } else {
        first_with_id(ts, id, k + 1)
    }
}

/// Resolves a template id against the built-ins and then the user
/// templates: a reserved id always gives its built-in; any other id gives
/// the first user template with that id.
pub fn resolve_template(id: &str, user: &[LcdTemplate]) -> (r: Option<LcdTemplate>)
    ensures
        is_reserved_id(id@) ==> (r matches Some(t) && is_builtin_for(id@, t)),
        !is_reserved_id(id@) ==> match first_with_id(user@, id@, 0) {
            Some(k) => r matches Some(t) && same_template(t, user@[k as int]),
            None => r is None,
        },
        r matches Some(t) ==> t.id@ == id@,
{
    if let Some(t) = builtin_template(id) {
        return Some(t);
    }
    let n = user.len();
    let mut i: usize = 0;
    while i < n
        invariant
            n == user@.len(),
            i <= n,
            !is_reserved_id(id@),
            first_with_id(user@, id@, 0) == first_with_id(user@, id@, i as nat),
        decreases n - i,
    {
        if crate::text::str_equal(user[i].id.as_str(), id) {
            return Some(user[i].clone());
        }
        i = i + 1;
    }
    None
}


/// Loading keeps exactly the user templates: every template it yields has
/// an id that is not reserved, and every template of the file whose id is
/// not reserved is among them.
pub proof fn lemma_loaded_templates_are_user_templates(file: TemplateFile)
    ensures
        forall|i: int|
            0 <= i < loaded_templates(TemplateFileRead::Parsed(file)).len()
                ==> is_user_template(
                #[trigger] loaded_templates(TemplateFileRead::Parsed(file))[i],
            ),
        forall|i: int|
            0 <= i < file.templates@.len() && is_user_template(#[trigger] file.templates@[i])
                ==> loaded_templates(TemplateFileRead::Parsed(file)).contains(file.templates@[i]),
{
    broadcast use vstd::seq_lib::group_filter_ensures;

}

/// Saving never writes a template with a reserved id.
pub proof fn lemma_saved_templates_are_user_templates(ts: Seq<LcdTemplate>, file: TemplateFile)
    requires
        same_templates(file.templates@, user_templates(ts)),
    ensures
        forall|i: int|
            0 <= i < file.templates@.len() ==> is_user_template(#[trigger] file.templates@[i]),
{
    broadcast use vstd::seq_lib::group_filter_ensures;

    assert forall|i: int| 0 <= i < file.templates@.len() implies is_user_template(
        #[trigger] file.templates@[i],
    ) by {
        assert(same_template(file.templates@[i], user_templates(ts)[i]));
    }
}

proof fn lemma_filter_of_user_templates(s: Seq<LcdTemplate>)
    requires
        forall|i: int| 0 <= i < s.len() ==> is_user_template(#[trigger] s[i]),
    ensures
        user_templates(s) == s,
    decreases s.len(),
{
    if s.len() > 0 {
        lemma_user_templates_step(s);
        let t = s.drop_last();
        assert forall|i: int| 0 <= i < t.len() implies is_user_template(#[trigger] t[i]) by {
            assert(t[i] == s[i]);
        }
        lemma_filter_of_user_templates(t);
        assert(t.push(s.last()) =~= s);
    }
}

/// What loading gives back of what saving wrote: when the templates file
/// holds the file that `template_file_for_save` made of `ts`, loading it
/// yields the same templates, the user templates of `ts`, in their order.
pub proof fn lemma_load_after_save(ts: Seq<LcdTemplate>, file: TemplateFile)
    requires
        same_templates(file.templates@, user_templates(ts)),
    ensures
        loaded_templates(TemplateFileRead::Parsed(file)) == file.templates@,
        same_templates(loaded_templates(TemplateFileRead::Parsed(file)), user_templates(ts)),
{
    lemma_saved_templates_are_user_templates(ts, file);
    lemma_filter_of_user_templates(file.templates@);
}

proof fn lemma_user_templates_by_id(ts: Seq<LcdTemplate>)
    ensures
        user_templates(ts) == ts.filter(|t: LcdTemplate| !is_reserved_id(t.id@)),
{
    assert((|t: LcdTemplate| is_user_template(t)) =~= (|t: LcdTemplate| !is_reserved_id(t.id@)));
}

/// Loading keeps a template of the file exactly when its id is neither
/// `cooler-default` nor `doublegauge-default`, whatever its name, size,
/// background or widgets; the kept ones stay in file order.
pub proof fn lemma_loading_filters_by_id_alone(file: TemplateFile)
    ensures
        loaded_templates(TemplateFileRead::Parsed(file)) == file.templates@.filter(
            |t: LcdTemplate| t.id@ != "cooler-default"@ && t.id@ != "doublegauge-default"@,
        ),
        forall|i: int|
            0 <= i < file.templates@.len() ==> (loaded_templates(
                TemplateFileRead::Parsed(file),
            ).contains(#[trigger] file.templates@[i]) <==> !is_reserved_id(
                file.templates@[i].id@,
            )),
{
    broadcast use vstd::seq_lib::group_filter_ensures;

    lemma_user_templates_by_id(file.templates@);
    assert((|t: LcdTemplate| !is_reserved_id(t.id@)) =~= (|t: LcdTemplate|
        t.id@ != "cooler-default"@ && t.id@ != "doublegauge-default"@));
}

/// Saving writes, in order, exactly the templates whose id is neither
/// `cooler-default` nor `doublegauge-default`, whatever their other fields.
pub proof fn lemma_saving_filters_by_id_alone(ts: Seq<LcdTemplate>, file: TemplateFile)
    requires
        same_templates(file.templates@, user_templates(ts)),
    ensures
        same_templates(
            file.templates@,
            ts.filter(
                |t: LcdTemplate| t.id@ != "cooler-default"@ && t.id@ != "doublegauge-default"@,
            ),
        ),
{
    lemma_user_templates_by_id(ts);
    assert((|t: LcdTemplate| !is_reserved_id(t.id@)) =~= (|t: LcdTemplate|
        t.id@ != "cooler-default"@ && t.id@ != "doublegauge-default"@));
}

proof fn lemma_first_with_id_found(ts: Seq<LcdTemplate>, id: Seq<char>, k: nat, j: nat)
    requires
        k <= j < ts.len(),
        ts[j as int].id@ == id,
    ensures
        first_with_id(ts, id, k) matches Some(f) && k <= f <= j && ts[f as int].id@ == id,
    decreases j - k,
{
    if ts[k as int].id@ != id {
        lemma_first_with_id_found(ts, id, k + 1, j);
    }
}

/// Every template that `all_templates` lists resolves by its id: a built-in
/// id resolves to its built-in, and the id of the user template at index
/// `k` resolves to the first user template with that id, at index `k` or
/// before.
pub proof fn lemma_listed_templates_resolve(user: Seq<LcdTemplate>, k: int)
    requires
        0 <= k < user.len(),
    ensures
        is_reserved_id(user[k].id@) || (first_with_id(user, user[k].id@, 0) matches Some(j) && j
            <= k && user[j as int].id@ == user[k].id@),
{
    lemma_first_with_id_found(user, user[k].id@, 0, k as nat);
}

} // verus!
