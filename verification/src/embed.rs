//! Expansion of the templates that are built into the program.
//!
//! The program holds every file under the repository `templates/` directory.
//! This module decides which of those files a template prefix selects, where
//! each one is written, and what text is written for it.

use vstd::prelude::*;
use vstd::string::*;
use vstd::utf8::{decode_utf8, valid_utf8};

use crate::errors::{AgentDevexError, ErrorView};
use crate::paths::{join, join_path};
use crate::text::{string_views, replace_all, replace_str, starts_with, starts_with_str, contains, lemma_replace_absent};
use crate::{lang_text, Lang};

verus! {

/// Placeholder replaced by the project name.
pub const PROJECT_NAME_PLACEHOLDER: &'static str = "{{PROJECT_NAME}}";

/// Placeholder replaced by the configured MCP language.
pub const DEFAULT_LANG_PLACEHOLDER: &'static str = "{{DEFAULT_LANG}}";

/// `template` with `{{PROJECT_NAME}}` replaced by the project name, and then
/// `{{DEFAULT_LANG}}` replaced by the language's configuration name.
pub open spec fn substituted(template: Seq<char>, project_name: Seq<char>, lang: Lang) -> Seq<char> {
    replace_all(
        replace_all(template, "{{PROJECT_NAME}}"@, project_name),
        "{{DEFAULT_LANG}}"@,
        lang_text(lang),
    )
}

/// Substitutes template variables (`{{PROJECT_NAME}}`, `{{DEFAULT_LANG}}`).
pub fn subst(template: &str, project_name: &str, lang: Lang) -> (r: String)
    ensures
        r@ == substituted(template@, project_name@, lang),
{
    proof {
        reveal_strlit("{{PROJECT_NAME}}");
        reveal_strlit("{{DEFAULT_LANG}}");
    }
    let named = replace_str(template, PROJECT_NAME_PLACEHOLDER, project_name);
    replace_str(named.as_str(), DEFAULT_LANG_PLACEHOLDER, lang.as_config_str())
}

/// A template that holds neither placeholder is written out unchanged.
pub proof fn lemma_subst_without_placeholders(template: Seq<char>, project_name: Seq<char>, lang: Lang)
    requires
        !contains(template, "{{PROJECT_NAME}}"@),
        !contains(template, "{{DEFAULT_LANG}}"@),
    ensures
        substituted(template, project_name, lang) == template,
{
    lemma_replace_absent(template, "{{PROJECT_NAME}}"@, project_name);
    lemma_replace_absent(template, "{{DEFAULT_LANG}}"@, lang_text(lang));
}

/// `s` without the `/` characters at its end (`str::trim_end_matches('/')`).
pub open spec fn strip_trailing_slashes(s: Seq<char>) -> Seq<char>
    decreases s.len(),
{
    if s.len() > 0 && s.last() == '/' {
        strip_trailing_slashes(s.drop_last())
    } else {
        s
    }
}

/// The part of `path` below the directory prefix `needle`, when there is a
/// non-empty one.
pub open spec fn relative_under(path: Seq<char>, needle: Seq<char>) -> Option<Seq<char>> {
    if starts_with(path, needle) && path.len() > needle.len() {
        Some(path.skip(needle.len() as int))
    } else {
        None
    }
}

/// The files that lie under `needle`, in the order of `assets`, each with the
/// place below `dest` it is written to.
pub open spec fn extraction_plan(needle: Seq<char>, dest: Seq<char>, assets: Seq<Seq<char>>) -> Seq<
    (Seq<char>, Seq<char>),
>
    decreases assets.len(),
{
    if assets.len() == 0 {
        seq![]
    } else {
        let earlier = extraction_plan(needle, dest, assets.drop_last());
        match relative_under(assets.last(), needle) {
            Some(rel) => earlier.push((assets.last(), join(dest, rel))),
            None => earlier,
        }
    }
}

/// The path `prefix/rel` lies under `prefix/`, at `rel`.
pub(crate) proof fn lemma_relative_under(prefix: Seq<char>, rel: Seq<char>)
    requires
        rel.len() > 0,
    ensures
        relative_under(prefix + "/"@ + rel, prefix + "/"@) == Some(rel),
{
    reveal_strlit("/");
    let n = prefix + "/"@;
    let a = n + rel;
    assert(a.subrange(0, n.len() as int) =~= n);
    assert(a.skip(n.len() as int) =~= rel);
    assert(prefix + "/"@ + rel =~= a);
}

/// An embedded file under `needle` is in the extraction plan, placed below
/// `dest` at its path relative to `needle`.
pub(crate) proof fn lemma_extraction_includes(
    needle: Seq<char>,
    dest: Seq<char>,
    assets: Seq<Seq<char>>,
    a: Seq<char>,
)
    requires
        assets.contains(a),
        relative_under(a, needle) is Some,
    ensures
        extraction_plan(needle, dest, assets).contains((a, join(dest, relative_under(a, needle)->0))),
    decreases assets.len(),
{
    let x = (a, join(dest, relative_under(a, needle)->0));
    let plan = extraction_plan(needle, dest, assets);
    let earlier = extraction_plan(needle, dest, assets.drop_last());
    if assets.last() == a {
        assert(plan == earlier.push(x));
        assert(plan[plan.len() - 1] == x);
    } else {
        let i = choose|i: int| 0 <= i < assets.len() && assets[i] == a;
        assert(i < assets.len() - 1);
        assert(assets.drop_last()[i] == a);
        lemma_extraction_includes(needle, dest, assets.drop_last(), a);
        let k = choose|k: int| 0 <= k < earlier.len() && earlier[k] == x;
        assert(plan[k] == x);
    }
}

/// One embedded file and the path it is written to.
#[derive(Debug)]
pub struct Extraction {
    pub asset: String,
    pub target: String,
}

pub open spec fn extraction_views(v: Seq<Extraction>) -> Seq<(Seq<char>, Seq<char>)> {
    v.map_values(|e: Extraction| (e.asset@, e.target@))
}

/// What [`extract_embedded`] decides for `prefix`, `dest` and the embedded
/// file list `assets`: the files under `prefix/`, or the missing prefix.
pub open spec fn extraction_result(prefix: Seq<char>, dest: Seq<char>, assets: Seq<Seq<char>>) -> Result<
    Seq<(Seq<char>, Seq<char>)>,
    Seq<char>,
> {
    let trimmed = strip_trailing_slashes(prefix);
    let plan = extraction_plan(trimmed + "/"@, dest, assets);
    if plan.len() == 0 {
        Err(trimmed)
    } else {
        Ok(plan)
    }
}

fn strip_trailing_slashes_str(s: &str) -> (r: &str)
    ensures
        r@ == strip_trailing_slashes(s@),
{
    let n = s.unicode_len();
    let mut k: usize = n;
    proof {
        assert(s@.take(n as int) =~= s@);
    }
    while k > 0 && s.get_char(k - 1) == '/'
        invariant
            k <= n,
            n == s@.len(),
            strip_trailing_slashes(s@) == strip_trailing_slashes(s@.take(k as int)),
        decreases k,
    {
        proof {
            let t = s@.take(k as int);
            assert(t.drop_last() =~= s@.take(k - 1));
        }
        k = k - 1;
    }
    proof {
        let t = s@.take(k as int);
        assert(strip_trailing_slashes(t) == t);
        assert(t =~= s@.subrange(0, k as int));
    }
    s.substring_char(0, k)
}

/// Select every embedded file whose path starts with `prefix/` and place it
/// below `dest`. A prefix that selects nothing fails with
/// [`AgentDevexError::TemplateMissing`].
pub fn extract_embedded(prefix: &str, dest: &str, assets: &Vec<String>) -> (r: Result<
    Vec<Extraction>,
    AgentDevexError,
>)
    ensures
        match extraction_result(prefix@, dest@, string_views(assets@)) {
            Ok(plan) => r matches Ok(v) && extraction_views(v@) == plan,
            Err(missing) => r matches Err(e) && e@ == ErrorView::TemplateMissing(missing),
        },
{
    let trimmed = strip_trailing_slashes_str(prefix);
    let mut needle = String::from_str(trimmed);
    needle.append("/");
    let m = needle.as_str().unicode_len();
    let ghost views = string_views(assets@);
    let mut out: Vec<Extraction> = Vec::new();
    let mut i: usize = 0;
    while i < assets.len()
        invariant
            i <= assets.len(),
            views == string_views(assets@),
            m == needle@.len(),
            extraction_views(out@) == extraction_plan(needle@, dest@, views.take(i as int)),
        decreases assets.len() - i,
    {
        proof {
            assert(views.take(i + 1).drop_last() =~= views.take(i as int));
            assert(views.take(i + 1).last() == assets@[i as int]@);
        }
        let path = assets[i].as_str();
        let n = path.unicode_len();
        if n > m && starts_with_str(path, needle.as_str()) {
            let rel = path.substring_char(m, n);
            let target = join_path(dest, rel);
            let ghost before = out@;
            out.push(Extraction { asset: String::from_str(path), target });
            proof {
                assert(rel@ =~= path@.skip(m as int));
                assert(extraction_views(out@) =~= extraction_views(before).push(
                    (path@, join(dest@, rel@)),
                ));
            }
        }
        i = i + 1;
    }
    proof {
        assert(views.take(assets.len() as int) =~= views);
    }
    if out.len() == 0 {
        return Err(AgentDevexError::TemplateMissing(String::from_str(trimmed)));
    }
    Ok(out)
}

/// `std::str::from_utf8`: succeeds exactly on well-formed UTF-8, and then
/// holds the characters the bytes encode.
#[verifier::external_body]
fn utf8_text(bytes: &[u8]) -> (r: Option<String>)
    ensures
        r is Some <==> valid_utf8(bytes@),
        r matches Some(t) ==> t@ == decode_utf8(bytes@),
{
    match std::str::from_utf8(bytes) {
        Ok(text) => Some(text.to_string()),
        Err(_) => None,
    }
}

/// The content written for one embedded file.
#[derive(Debug)]
pub enum RenderedFile {
    /// UTF-8 text after placeholder substitution.
    Text(String),
    /// Not UTF-8: the file's bytes are written unchanged.
    Raw,
}

/// UTF-8 files receive `{{PROJECT_NAME}}` / `{{DEFAULT_LANG}}` substitution;
/// other files are copied byte for byte.
pub fn render_asset(data: &[u8], project_name: &str, lang: Lang) -> (r: RenderedFile)
    ensures
        valid_utf8(data@) ==> (r matches RenderedFile::Text(t) && t@ == substituted(
            decode_utf8(data@),
            project_name@,
            lang,
        )),
        !valid_utf8(data@) ==> r is Raw,
{
    match utf8_text(data) {
        Some(text) => RenderedFile::Text(subst(text.as_str(), project_name, lang)),
        None => RenderedFile::Raw,
    }
}

} // verus!
