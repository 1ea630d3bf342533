//! Naming: the destination key derived from a source path, and the staging
//! path of a file.
use vstd::prelude::*;

verus! {

/// What sedregex makes of `text` under one `s/regex/replacement/flags`
/// command, or `None` when the command does not parse.
pub uninterp spec fn sed_replaced(text: Seq<char>, command: Seq<char>) -> Option<Seq<char>>;

/// Relies on `sedregex::find_and_replace` given a single command: it parses
/// the command and applies it to the text, and fails only when the command
/// does not parse; the result depends on the text and the command alone.
#[verifier::external_body]
fn sed_replace(text: &str, command: &str) -> (r: Option<String>)
    ensures
        match r {
            Some(s) => sed_replaced(text@, command@) == Some(s@),
            None => sed_replaced(text@, command@) is None,
        },
{
    match sedregex::find_and_replace(text, [command]) {
        Ok(s) => Some(s.into_owned()),
        Err(_) => None,
    }
}

pub open spec fn then_replace(text: Option<Seq<char>>, command: Seq<char>) -> Option<Seq<char>> {
    match text {
        Some(t) => sed_replaced(t, command),
        None => None,
    }
}

/// The command that removes every `<base>/` from a path.
pub open spec fn strip_base_command(base: Seq<char>) -> Seq<char> {
    "s/\\"@ + base + "\\///g"@
}

/// The destination key of a source path under `base`: the base folder
/// removed, then the fixed rewrites applied in order.
pub open spec fn destination_key_of(path: Seq<char>, base: Seq<char>) -> Option<Seq<char>> {
    let stripped = sed_replaced(path, strip_base_command(base));
    let a = then_replace(stripped, "s/channel/Channel/g"@);
    let b = then_replace(a, "s/_/_/g"@);
    let c = then_replace(b, "s/\\|/\\|/g"@);
    then_replace(c, "s/\u{2022}/\\\u{2022}/g"@)
}

fn replace_next(text: Option<String>, command: &str) -> (r: Option<String>)
    ensures
        r matches Some(s) ==> then_replace(Some(text->Some_0@), command@) == Some(s@),
        r is Some <==> (text is Some && then_replace(Some(text->Some_0@), command@) is Some),
{
    match text {
        Some(t) => sed_replace(t.as_str(), command),
        None => None,
    }
}

/// Derives the destination key for `old_path` when the source tree is rooted
/// at `base_folder`; `None` when a rewrite command does not parse (a base
/// folder that is not a valid pattern).
pub fn standardize_path(old_path: &str, base_folder: &str) -> (r: Option<String>)
    ensures
        match r {
            Some(k) => destination_key_of(old_path@, base_folder@) == Some(k@),
            None => destination_key_of(old_path@, base_folder@) is None,
        },
{
    let mut command = String::from_str("s/\\");
    command.append(base_folder);
    command.append("\\///g");
    let path = sed_replace(old_path, command.as_str());
    let path = replace_next(path, "s/channel/Channel/g");
    let path = replace_next(path, "s/_/_/g");
    let path = replace_next(path, "s/\\|/\\|/g");
    replace_next(path, "s/\u{2022}/\\\u{2022}/g")
}

/// The staging path of a file: its source identifier under the temp directory.
pub fn staging_path(temp_dir: &str, source_id: &str) -> (p: String)
    ensures
        p@ == temp_dir@ + "/"@ + source_id@,
{
    let mut p = String::from_str(temp_dir);
    p.append("/");
    p.append(source_id);
    p
}

} // verus!
