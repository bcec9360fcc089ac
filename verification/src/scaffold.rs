//! Scaffold generated projects from the embedded templates.

use vstd::prelude::*;
use vstd::string::*;

use crate::embed::{
    extract_embedded, extraction_plan, extraction_result, extraction_views, lemma_extraction_includes,
    lemma_relative_under, relative_under, strip_trailing_slashes, Extraction,
};
use crate::text::string_views;
use crate::errors::{AgentDevexError, ErrorView};
use crate::paths::{agent_dir, contract_crate_dir, contract_crate_path, join, server_dir};
use crate::Lang;

verus! {

/// One template prefix and the directory its files are placed in.
#[derive(Debug)]
pub struct TemplateJob {
    pub prefix: String,
    pub dest: String,
}

pub open spec fn job_views(v: Seq<TemplateJob>) -> Seq<(Seq<char>, Seq<char>)> {
    v.map_values(|j: TemplateJob| (j.prefix@, j.dest@))
}

/// Template of the MCP server sources for a language.
pub open spec fn server_template(lang: Lang) -> Seq<char> {
    match lang {
        Lang::Ts => "node-mcp"@,
        Lang::Py => "python-mcp"@,
    }
}

/// Template of the agent package for a language.
pub open spec fn agent_template(lang: Lang) -> Seq<char> {
    match lang {
        Lang::Ts => "agent/ts"@,
        Lang::Py => "agent/py"@,
    }
}

/// The templates a project is made of, in the order they are written:
/// project files and shared files at the root, the Soroban contract in the
/// contract crate directory, then the language's MCP server and agent.
pub open spec fn project_templates(root: Seq<char>, lang: Lang) -> Seq<(Seq<char>, Seq<char>)> {
    seq![
        ("project"@, root),
        ("shared"@, root),
        ("soroban"@, contract_crate_path(root)),
        (server_template(lang), join(root, "server"@)),
        (agent_template(lang), join(root, "agent"@)),
    ]
}

/// What scaffolding `jobs` in order produces: the files of every job
/// before the first prefix that selects none, and that prefix, if any.
/// Scaffolding stops at a missing template; the files before it are
/// written all the same.
pub open spec fn project_plan(jobs: Seq<(Seq<char>, Seq<char>)>, assets: Seq<Seq<char>>) -> (
    Seq<(Seq<char>, Seq<char>)>,
    Option<Seq<char>>,
)
    decreases jobs.len(),
{
    if jobs.len() == 0 {
        (seq![], None)
    } else {
        let (earlier, missing) = project_plan(jobs.drop_last(), assets);
        if missing is Some {
            (earlier, missing)
        } else {
            match extraction_result(jobs.last().0, jobs.last().1, assets) {
                Ok(files) => (earlier + files, None),
                Err(m) => (earlier, Some(m)),
            }
        }
    }
}

/// The files to write for a new project, and the template whose absence
/// stopped the scaffold, if one did.
#[derive(Debug)]
pub struct ScaffoldPlan {
    /// Every file of the templates before the missing one, in order.
    pub files: Vec<Extraction>,
    /// `TemplateMissing` for the first template that selects no file.
    pub missing: Option<AgentDevexError>,
}

fn job(prefix: &str, dest: String) -> (j: TemplateJob)
    ensures
        j.prefix@ == prefix@,
        j.dest@ == dest@,
{
    TemplateJob { prefix: String::from_str(prefix), dest }
}

/// The template jobs for a project rooted at `root`.
pub fn template_jobs(root: &str, lang: Lang) -> (jobs: Vec<TemplateJob>)
    ensures
        job_views(jobs@) == project_templates(root@, lang),
{
    let mut jobs = Vec::new();
    jobs.push(job("project", String::from_str(root)));
    jobs.push(job("shared", String::from_str(root)));
    jobs.push(job("soroban", contract_crate_dir(root)));
    match lang {
        Lang::Ts => {
            jobs.push(job("node-mcp", server_dir(root)));
            jobs.push(job("agent/ts", agent_dir(root)));
        },
        Lang::Py => {
            jobs.push(job("python-mcp", server_dir(root)));
            jobs.push(job("agent/py", agent_dir(root)));
        },
    }
    assert(job_views(jobs@) =~= project_templates(root@, lang));
    jobs
}

/// Every file to write for a new project, in order, up to the first
/// template missing from `assets`, which is reported alongside.
pub fn write_project(root: &str, lang: Lang, assets: &Vec<String>) -> (r: ScaffoldPlan)
    ensures
        extraction_views(r.files@) == project_plan(project_templates(root@, lang), string_views(assets@)).0,
        match project_plan(project_templates(root@, lang), string_views(assets@)).1 {
            None => r.missing is None,
            Some(m) => r.missing matches Some(e) && e@ == ErrorView::TemplateMissing(m),
        },
{
    let jobs = template_jobs(root, lang);
    let ghost jv = job_views(jobs@);
    let ghost av = string_views(assets@);
    let mut out: Vec<Extraction> = Vec::new();
    let mut i: usize = 0;
    proof {
        assert(jv.take(0) =~= Seq::<(Seq<char>, Seq<char>)>::empty());
        assert(extraction_views(out@) =~= Seq::<(Seq<char>, Seq<char>)>::empty());
    }
    while i < jobs.len()
        invariant
            i <= jobs.len(),
            jv == job_views(jobs@),
            jv == project_templates(root@, lang),
            av == string_views(assets@),
            project_plan(jv.take(i as int), av) == (extraction_views(out@), None::<Seq<char>>),
        decreases jobs.len() - i,
    {
        proof {
            assert(jv.take(i + 1).drop_last() =~= jv.take(i as int));
            assert(jv.take(i + 1).last() == jv[i as int]);
            assert(jv[i as int] == (jobs@[i as int].prefix@, jobs@[i as int].dest@));
        }
        let ghost before = out@;
        match extract_embedded(jobs[i].prefix.as_str(), jobs[i].dest.as_str(), assets) {
            Ok(mut files) => {
                let ghost fv = files@;
                out.append(&mut files);
                proof {
                    assert(extraction_views(out@) =~= extraction_views(before) + extraction_views(
                        fv,
                    ));
                }
            },
            Err(e) => {
                proof {
                    lemma_plan_stops(jv, av, i as int + 1);
                }
                return ScaffoldPlan { files: out, missing: Some(e) };
            },
        }
        i = i + 1;
    }
    proof {
        assert(jv.take(jobs.len() as int) =~= jv);
    }
    ScaffoldPlan { files: out, missing: None }
}

/// Once a prefix of the jobs stops at a missing template, every longer
/// prefix gives the same files and the same missing template.
proof fn lemma_plan_stops(jobs: Seq<(Seq<char>, Seq<char>)>, assets: Seq<Seq<char>>, k: int)
    requires
        0 <= k <= jobs.len(),
        project_plan(jobs.take(k), assets).1 is Some,
    ensures
        project_plan(jobs, assets) == project_plan(jobs.take(k), assets),
    decreases jobs.len() - k,
{
    if k < jobs.len() {
        assert(jobs.take(k + 1).drop_last() =~= jobs.take(k));
        lemma_plan_stops(jobs, assets, k + 1);
    } else {
        assert(jobs.take(k) =~= jobs);
    }
}

/// The paths a scaffold of `root` in `lang` writes, in order.
pub open spec fn scaffold_tree(root: Seq<char>, lang: Lang, assets: Seq<Seq<char>>) -> Seq<Seq<char>> {
    project_plan(project_templates(root, lang), assets).0.map_values(
        |f: (Seq<char>, Seq<char>)| f.1,
    )
}

/// When no template is missing, every file a job extracts is in the plan.
proof fn lemma_plan_includes(
    jobs: Seq<(Seq<char>, Seq<char>)>,
    assets: Seq<Seq<char>>,
    i: int,
    x: (Seq<char>, Seq<char>),
)
    requires
        project_plan(jobs, assets).1 is None,
        0 <= i < jobs.len(),
        extraction_result(jobs[i].0, jobs[i].1, assets) matches Ok(files) && files.contains(x),
    ensures
        project_plan(jobs, assets).0.contains(x),
    decreases jobs.len(),
{
    let plan = project_plan(jobs, assets).0;
    let earlier = project_plan(jobs.drop_last(), assets).0;
    let last = extraction_result(jobs.last().0, jobs.last().1, assets);
    assert(project_plan(jobs.drop_last(), assets).1 is None);
    assert(last is Ok);
    assert(plan == earlier + last->Ok_0);
    if i == jobs.len() - 1 {
        let files = last->Ok_0;
        let k = choose|k: int| 0 <= k < files.len() && files[k] == x;
        assert(plan[earlier.len() + k] == x);
    } else {
        assert(jobs.drop_last()[i] == jobs[i]);
        lemma_plan_includes(jobs.drop_last(), assets, i, x);
        let k = choose|k: int| 0 <= k < earlier.len() && earlier[k] == x;
        assert(plan[k] == x);
    }
}

/// An embedded file `prefix/rel` of the `i`-th template is written to
/// `rel` below that template's directory, when no template is missing.
pub(crate) proof fn lemma_asset_written(
    root: Seq<char>,
    lang: Lang,
    assets: Seq<Seq<char>>,
    i: int,
    prefix: Seq<char>,
    rel: Seq<char>,
)
    requires
        0 <= i < 5,
        project_templates(root, lang)[i].0 == prefix,
        prefix.len() > 0,
        prefix.last() != '/',
        rel.len() > 0,
        assets.contains(prefix + "/"@ + rel),
        project_plan(project_templates(root, lang), assets).1 is None,
    ensures
        scaffold_tree(root, lang, assets).contains(join(project_templates(root, lang)[i].1, rel)),
{
    let jobs = project_templates(root, lang);
    let dest = jobs[i].1;
    let a = prefix + "/"@ + rel;
    assert(strip_trailing_slashes(prefix) == prefix);
    lemma_relative_under(prefix, rel);
    lemma_extraction_includes(prefix + "/"@, dest, assets, a);
    let files = extraction_plan(prefix + "/"@, dest, assets);
    let x = (a, join(dest, rel));
    let k0 = choose|k: int| 0 <= k < files.len() && files[k] == x;
    assert(files.len() > 0);
    lemma_plan_includes(jobs, assets, i, x);
    let plan = project_plan(jobs, assets).0;
    let k = choose|k: int| 0 <= k < plan.len() && plan[k] == x;
    assert(scaffold_tree(root, lang, assets)[k] == join(dest, rel));
}

/// The scaffold places the contract template in the directory that
/// [`contract_crate_dir`] names and the agent template in the one that
/// [`agent_dir`] names, so later commands find what `init` wrote.
pub proof fn lemma_layout_matches_paths(root: Seq<char>, lang: Lang)
    ensures
        project_templates(root, lang)[2] == ("soroban"@, contract_crate_path(root)),
        project_templates(root, lang)[4] == (agent_template(lang), join(root, "agent"@)),
        project_templates(root, lang)[3].1 == join(root, "server"@),
{
}

} // verus!
