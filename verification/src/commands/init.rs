//! `init`: create a monorepo with `contracts/` (Soroban + AgentPay) and
//! `agent/` (MCP server).

use vstd::prelude::*;
use vstd::string::*;

use crate::config::{lang_result_view, parse_lang, parse_lang_spec, AgentConfig};
use crate::embed::{extraction_views, Extraction};
use crate::errors::{concat3, AgentDevexError, ErrorView};
use crate::fsutil::{is_missing_or_empty_dir, DirProbe};
use crate::output::{message_views, Level, Message};
use crate::commands::validate::{
    config_lang_error, env_key_issues, has_py_layout, has_ts_layout, healthy_message, layout_issues,
    validation_issues, validation_result, EnvExample, ProjectProbe,
};
use crate::paths::{contract_crate_path, join, join_path, lemma_join_twice};
use crate::scaffold::{lemma_asset_written, project_plan, project_templates, scaffold_tree, write_project};
use crate::text::{contains, string_views};
use crate::{lang_text, Lang};

verus! {

/// Everything `init` writes and shows for a new project.
#[derive(Debug)]
pub struct InitPlan {
    /// Embedded files and where each is written.
    pub files: Vec<Extraction>,
    /// Where `agent.toml` is written.
    pub agent_toml_path: String,
    /// The `agent.toml` of the new project.
    pub agent_config: AgentConfig,
    /// Lines to show once everything is written.
    pub messages: Vec<Message>,
    /// The template whose absence stops `init`: the files before it are
    /// written, then `init` fails with this error (and writes no
    /// `agent.toml` and shows no lines).
    pub missing: Option<AgentDevexError>,
}

/// The lines `init` shows after creating `project_name`.
pub open spec fn init_lines(project_name: Seq<char>, lang: Lang) -> Seq<(Level, Seq<char>)> {
    seq![
        (Level::Success, "Created "@ + project_name + "/"@),
        (Level::Hint, "  contracts/agent_pay_integration  Soroban + AgentPay/AgentGuard"@),
        (Level::Hint, match lang {
            Lang::Ts => "  agent/                          TypeScript MCP server"@,
            Lang::Py => "  agent/                          Python MCP server"@,
        }),
        (
            Level::Hint,
            "Next: cd "@ + project_name
                + " && stellar contract build --manifest-path contracts/agent_pay_integration/Cargo.toml"@,
        ),
        (Level::Hint, match lang {
            Lang::Ts => "      cd agent && npm install && npx tsx src/index.ts"@,
            Lang::Py => "      cd agent && uv sync && uv run python src/server.py"@,
        }),
    ]
}

/// The lines `init` shows name the chosen language: a Python project is
/// told to run its agent with `uv` (`src/server.py`), a TypeScript project
/// with `npm` and `tsx` (`src/index.ts`); both start with the created
/// directory and the same build command for the contract.
pub proof fn lemma_init_lines_follow_language(project_name: Seq<char>)
    ensures
        init_lines(project_name, Lang::Py).len() == 5,
        init_lines(project_name, Lang::Ts).len() == 5,
        init_lines(project_name, Lang::Py)[2] == (
            Level::Hint,
            "  agent/                          Python MCP server"@,
        ),
        init_lines(project_name, Lang::Py)[4] == (
            Level::Hint,
            "      cd agent && uv sync && uv run python src/server.py"@,
        ),
        init_lines(project_name, Lang::Ts)[2] == (
            Level::Hint,
            "  agent/                          TypeScript MCP server"@,
        ),
        init_lines(project_name, Lang::Ts)[4] == (
            Level::Hint,
            "      cd agent && npm install && npx tsx src/index.ts"@,
        ),
        init_lines(project_name, Lang::Py)[4] != init_lines(project_name, Lang::Ts)[4],
        init_lines(project_name, Lang::Py)[0] == (Level::Success, "Created "@ + project_name + "/"@),
        init_lines(project_name, Lang::Py)[3] == init_lines(project_name, Lang::Ts)[3],
{
    reveal_strlit("      cd agent && uv sync && uv run python src/server.py");
    reveal_strlit("      cd agent && npm install && npx tsx src/index.ts");
    assert("      cd agent && uv sync && uv run python src/server.py"@[18]
        != "      cd agent && npm install && npx tsx src/index.ts"@[18]);
}

fn init_messages(project_name: &str, lang: Lang) -> (v: Vec<Message>)
    ensures
        message_views(v@) == init_lines(project_name@, lang),
{
    let mut v = Vec::new();
    v.push(Message::success(concat3("Created ", project_name, "/")));
    v.push(
        Message::hint(
            String::from_str("  contracts/agent_pay_integration  Soroban + AgentPay/AgentGuard"),
        ),
    );
    let (agent_line, run_line) = match lang {
        Lang::Ts => (
            "  agent/                          TypeScript MCP server",
            "      cd agent && npm install && npx tsx src/index.ts",
        ),
        Lang::Py => (
            "  agent/                          Python MCP server",
            "      cd agent && uv sync && uv run python src/server.py",
        ),
    };
    v.push(Message::hint(String::from_str(agent_line)));
    v.push(
        Message::hint(
            concat3(
                "Next: cd ",
                project_name,
                " && stellar contract build --manifest-path contracts/agent_pay_integration/Cargo.toml",
            ),
        ),
    );
    v.push(Message::hint(String::from_str(run_line)));
    assert(message_views(v@) =~= init_lines(project_name@, lang));
    v
}

/// Scaffold `project_name` (a directory of that name) in `lang`, given what
/// is found at that path and the embedded template files. A directory that
/// exists and is not empty is refused; an unreadable one is an I/O error.
pub fn cmd_init(project_name: &str, lang: Lang, root: &DirProbe, assets: &Vec<String>) -> (r: Result<
    InitPlan,
    AgentDevexError,
>)
    ensures
        match *root {
            DirProbe::Unreadable { source } => r matches Err(e) && e@ == (ErrorView::IoError {
                path: project_name@,
                source: source@,
            }),
            DirProbe::NotADirectory => r matches Err(e) && e@ == (ErrorView::DirectoryNotEmpty {
                path: project_name@,
            }),
            DirProbe::Directory { has_entries } if has_entries => r matches Err(e) && e@
                == (ErrorView::DirectoryNotEmpty { path: project_name@ }),
            _ => r matches Ok(p) && {
                let plan = project_plan(project_templates(project_name@, lang), string_views(assets@));
                &&& extraction_views(p.files@) == plan.0
                &&& match plan.1 {
                    None => p.missing is None,
                    Some(m) => p.missing matches Some(e) && e@ == ErrorView::TemplateMissing(m),
                }
                &&& p.agent_toml_path@ == join(project_name@, "agent.toml"@)
                &&& p.agent_config.network@ == "testnet"@
                &&& p.agent_config.contract_ids.agent_pay is None
                &&& p.agent_config.mcp.lang matches Some(l) && l@ == lang_text(lang)
                &&& p.agent_config.mcp.port == 3000
                &&& message_views(p.messages@) == init_lines(project_name@, lang)
            },
        },
{
    let usable = is_missing_or_empty_dir(project_name, root)?;
    if !usable {
        return Err(AgentDevexError::DirectoryNotEmpty { path: String::from_str(project_name) });
    }
    let scaffold = write_project(project_name, lang, assets);
    Ok(
        InitPlan {
            files: scaffold.files,
            missing: scaffold.missing,
            agent_toml_path: join_path(project_name, "agent.toml"),
            agent_config: AgentConfig::for_new_project(lang),
            messages: init_messages(project_name, lang),
        },
    )
}

/// How the language of a new project is settled.
#[derive(Debug, PartialEq, Eq, Structural)]
pub enum LangChoice {
    /// The language is known.
    Chosen(Lang),
    /// Nothing names one: ask the user when a terminal is attached,
    /// otherwise use TypeScript.
    Ask,
}

/// `--lang` wins; otherwise the `default_lang` of `agent-devex.toml` (a
/// value that does not name a language is an error); otherwise ask.
pub fn resolve_init_lang(cli_lang: Option<Lang>, config_default: Option<&str>) -> (r: Result<
    LangChoice,
    AgentDevexError,
>)
    ensures
        match cli_lang {
            Some(l) => r == Ok::<LangChoice, AgentDevexError>(LangChoice::Chosen(l)),
            None => match config_default {
                None => r == Ok::<LangChoice, AgentDevexError>(LangChoice::Ask),
                Some(v) => match parse_lang_spec(v@) {
                    Ok(l) => r == Ok::<LangChoice, AgentDevexError>(LangChoice::Chosen(l)),
                    Err(e) => r matches Err(x) && x@ == e,
                },
            },
        },
{
    match cli_lang {
        Some(l) => Ok(LangChoice::Chosen(l)),
        None => match config_default {
            None => Ok(LangChoice::Ask),
            Some(v) => match parse_lang(v) {
                Ok(l) => Ok(LangChoice::Chosen(l)),
                Err(e) => Err(e),
            },
        },
    }
}

/// The language for an `Ask` choice: the user's answer when one was read
/// (read like a configured language name), TypeScript when none was.
pub fn lang_from_answer(answer: Option<&str>) -> (r: Result<Lang, AgentDevexError>)
    ensures
        match answer {
            None => r == Ok::<Lang, AgentDevexError>(Lang::Ts),
            Some(a) => lang_result_view(r) == parse_lang_spec(a@),
        },
{
    match answer {
        None => Ok(Lang::Ts),
        Some(a) => parse_lang(a),
    }
}

/// The embedded files that a scaffolded project in `lang` needs to pass
/// `validate`: the project's README and `agent-devex.toml`, the shared
/// `.env.example` and `.gitignore`, the contract's manifest and source, and
/// the manifest and entry point of the language's agent package.
pub open spec fn validated_assets(lang: Lang) -> Seq<Seq<char>> {
    seq![
        "project/README.md"@,
        "project/agent-devex.toml"@,
        "shared/.env.example"@,
        "shared/.gitignore"@,
        "soroban/Cargo.toml"@,
        "soroban/src/lib.rs"@,
    ] + match lang {
        Lang::Ts => seq!["agent/ts/package.json"@, "agent/ts/src/index.ts"@],
        Lang::Py => seq!["agent/py/pyproject.toml"@, "agent/py/src/server.py"@],
    }
}

/// The probe of `root` shows as a file every path of `tree` that
/// `validate` looks for.
pub open spec fn probe_shows(root: Seq<char>, p: ProjectProbe, tree: Seq<Seq<char>>) -> bool {
    let krate = contract_crate_path(root);
    let agent = join(root, "agent"@);
    &&& tree.contains(join(krate, "Cargo.toml"@)) ==> p.manifest
    &&& tree.contains(join(join(krate, "src"@), "lib.rs"@)) ==> p.contract_lib
    &&& tree.contains(join(agent, "package.json"@)) ==> p.package_json
    &&& tree.contains(join(join(agent, "src"@), "index.ts"@)) ==> p.index_ts
    &&& tree.contains(join(agent, "pyproject.toml"@)) ==> p.pyproject
    &&& tree.contains(join(join(agent, "src"@), "server.py"@)) ==> p.server_py
    &&& tree.contains(join(root, "README.md"@)) ==> p.readme
    &&& tree.contains(join(root, ".gitignore"@)) ==> p.gitignore
    &&& tree.contains(join(root, "agent-devex.toml"@)) ==> p.config_file
}

/// A freshly scaffolded project validates. When the embedded files hold
/// every template and the files of [`validated_assets`], the written
/// `.env.example` names the three keys and `agent-devex.toml` loads with a
/// known language (or none), then a probe of the tree that `init` wrote
/// passes `validate`, reported as a project of the chosen language.
pub proof fn lemma_scaffold_validates(root: Seq<char>, lang: Lang, assets: Seq<Seq<char>>, p: ProjectProbe)
    requires
        forall|i: int|
            0 <= i < validated_assets(lang).len() ==> assets.contains(
                #[trigger] validated_assets(lang)[i],
            ),
        project_plan(project_templates(root, lang), assets).1 is None,
        probe_shows(root, p, scaffold_tree(root, lang, assets)),
        p.env_example matches EnvExample::Text(raw) && contains(raw@, "STELLAR_SECRET_KEY"@)
            && contains(raw@, "AGENTPAY_CONTRACT_ID"@) && contains(raw@, "STELLAR_ACCOUNT"@),
        p.config matches Ok(cfg) && config_lang_error(cfg) is None,
    ensures
        validation_result(root, p) == Ok::<Seq<char>, ErrorView>(healthy_message(root, p)),
        lang == Lang::Ts ==> has_ts_layout(p),
        lang == Lang::Py ==> has_py_layout(p),
{
    reveal_strlit("/");
    reveal_strlit("project");
    reveal_strlit("shared");
    reveal_strlit("soroban");
    reveal_strlit("agent/ts");
    reveal_strlit("agent/py");
    reveal_strlit("src");
    reveal_strlit("README.md");
    reveal_strlit("agent-devex.toml");
    reveal_strlit(".env.example");
    reveal_strlit(".gitignore");
    reveal_strlit("Cargo.toml");
    reveal_strlit("lib.rs");
    reveal_strlit("src/lib.rs");
    reveal_strlit("package.json");
    reveal_strlit("index.ts");
    reveal_strlit("src/index.ts");
    reveal_strlit("pyproject.toml");
    reveal_strlit("server.py");
    reveal_strlit("src/server.py");
    reveal_strlit("project/README.md");
    reveal_strlit("project/agent-devex.toml");
    reveal_strlit("shared/.env.example");
    reveal_strlit("shared/.gitignore");
    reveal_strlit("soroban/Cargo.toml");
    reveal_strlit("soroban/src/lib.rs");
    reveal_strlit("agent/ts/package.json");
    reveal_strlit("agent/ts/src/index.ts");
    reveal_strlit("agent/py/pyproject.toml");
    reveal_strlit("agent/py/src/server.py");
    let v = validated_assets(lang);
    let tree = scaffold_tree(root, lang, assets);
    let krate = contract_crate_path(root);
    let agent = join(root, "agent"@);

    assert(assets.contains(v[0]));
    assert("project"@ + "/"@ + "README.md"@ =~= v[0]);
    lemma_asset_written(root, lang, assets, 0, "project"@, "README.md"@);
    assert(assets.contains(v[1]));
    assert("project"@ + "/"@ + "agent-devex.toml"@ =~= v[1]);
    lemma_asset_written(root, lang, assets, 0, "project"@, "agent-devex.toml"@);
    assert(assets.contains(v[3]));
    assert("shared"@ + "/"@ + ".gitignore"@ =~= v[3]);
    lemma_asset_written(root, lang, assets, 1, "shared"@, ".gitignore"@);
    assert(assets.contains(v[4]));
    assert("soroban"@ + "/"@ + "Cargo.toml"@ =~= v[4]);
    lemma_asset_written(root, lang, assets, 2, "soroban"@, "Cargo.toml"@);
    assert(assets.contains(v[5]));
    assert("soroban"@ + "/"@ + "src/lib.rs"@ =~= v[5]);
    lemma_asset_written(root, lang, assets, 2, "soroban"@, "src/lib.rs"@);
    lemma_join_twice(krate, "src"@, "lib.rs"@);
    assert("src"@ + "/"@ + "lib.rs"@ =~= "src/lib.rs"@);
    assert(p.manifest && p.contract_lib && p.readme && p.gitignore && p.config_file);

    assert(assets.contains(v[6]));
    assert(assets.contains(v[7]));
    match lang {
        Lang::Ts => {
            assert("agent/ts"@ + "/"@ + "package.json"@ =~= v[6]);
            lemma_asset_written(root, lang, assets, 4, "agent/ts"@, "package.json"@);
            assert("agent/ts"@ + "/"@ + "src/index.ts"@ =~= v[7]);
            lemma_asset_written(root, lang, assets, 4, "agent/ts"@, "src/index.ts"@);
            lemma_join_twice(agent, "src"@, "index.ts"@);
            assert("src"@ + "/"@ + "index.ts"@ =~= "src/index.ts"@);
            assert(has_ts_layout(p));
        },
        Lang::Py => {
            assert("agent/py"@ + "/"@ + "pyproject.toml"@ =~= v[6]);
            lemma_asset_written(root, lang, assets, 4, "agent/py"@, "pyproject.toml"@);
            assert("agent/py"@ + "/"@ + "src/server.py"@ =~= v[7]);
            lemma_asset_written(root, lang, assets, 4, "agent/py"@, "src/server.py"@);
            lemma_join_twice(agent, "src"@, "server.py"@);
            assert("src"@ + "/"@ + "server.py"@ =~= "src/server.py"@);
            assert(has_py_layout(p));
        },
    }
    let raw = p.env_example->Text_0@;
    assert(layout_issues(root, p) =~= Seq::<Seq<char>>::empty());
    assert(env_key_issues(raw) =~= Seq::<Seq<char>>::empty());
    assert(validation_issues(root, p) =~= Seq::<Seq<char>>::empty());
}

} // verus!
