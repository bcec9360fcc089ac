//! What `validate`'s verdict implies: the laws that relate a project's
//! `.env.example` keys and layout to whether `validate` accepts it.

use vstd::prelude::*;
use vstd::string::*;

use crate::commands::validate::{
    config_lang_error, env_key_issues, issue_if, layout_issues, validation_issues,
    validation_result, EnvExample, ProjectProbe,
};
use crate::config::AgentDevexConfig;
use crate::errors::{AgentDevexError, ErrorView};
use crate::text::{contains, lemma_join_with_contains};

verus! {

/// The config loaded (or is absent) and names a known language, if any.
pub open spec fn config_accepted(config: Result<Option<AgentDevexConfig>, AgentDevexError>) -> bool {
    config matches Ok(cfg) && config_lang_error(cfg) is None
}

/// A readable `.env.example` that lacks `key` makes `validate` fail, with
/// `.env.example missing <key>` among the problems it lists, unless the
/// config already stopped it.
proof fn lemma_missing_key_reported(dir: Seq<char>, p: ProjectProbe, k: int)
    requires
        0 <= k < 3,
        p.env_example matches EnvExample::Text(raw) && !contains(
            raw@,
            seq!["STELLAR_SECRET_KEY"@, "AGENTPAY_CONTRACT_ID"@, "STELLAR_ACCOUNT"@][k],
        ),
        p.config matches Ok(cfg) && config_lang_error(cfg) is None,
    ensures
        validation_result(dir, p) matches Err(ErrorView::ValidationFailed(m)) && contains(
            m,
            ".env.example missing "@ + seq!["STELLAR_SECRET_KEY"@, "AGENTPAY_CONTRACT_ID"@, "STELLAR_ACCOUNT"@][k],
        ),
{
    reveal_strlit(".env.example missing ");
    reveal_strlit("STELLAR_SECRET_KEY");
    reveal_strlit("AGENTPAY_CONTRACT_ID");
    reveal_strlit("STELLAR_ACCOUNT");
    reveal_strlit(".env.example missing STELLAR_SECRET_KEY");
    reveal_strlit(".env.example missing AGENTPAY_CONTRACT_ID");
    reveal_strlit(".env.example missing STELLAR_ACCOUNT");
    let raw = p.env_example->Text_0@;
    let layout = layout_issues(dir, p);
    let e0 = issue_if(!contains(raw, "STELLAR_SECRET_KEY"@), ".env.example missing STELLAR_SECRET_KEY"@);
    let e1 = issue_if(
        !contains(raw, "AGENTPAY_CONTRACT_ID"@),
        ".env.example missing AGENTPAY_CONTRACT_ID"@,
    );
    let e2 = issue_if(!contains(raw, "STELLAR_ACCOUNT"@), ".env.example missing STELLAR_ACCOUNT"@);
    let issues = validation_issues(dir, p);
    assert(issues =~= layout + e0 + e1 + e2);
    let idx: int = if k == 0 {
        layout.len() as int
    } else if k == 1 {
        (layout.len() + e0.len()) as int
    } else {
        (layout.len() + e0.len() + e1.len()) as int
    };
    if k == 0 {
        assert(".env.example missing "@ + "STELLAR_SECRET_KEY"@ =~= ".env.example missing STELLAR_SECRET_KEY"@);
    } else if k == 1 {
        assert(".env.example missing "@ + "AGENTPAY_CONTRACT_ID"@ =~= ".env.example missing AGENTPAY_CONTRACT_ID"@);
    } else {
        assert(".env.example missing "@ + "STELLAR_ACCOUNT"@ =~= ".env.example missing STELLAR_ACCOUNT"@);
    }
    assert(issues[idx] == ".env.example missing "@ + seq!["STELLAR_SECRET_KEY"@, "AGENTPAY_CONTRACT_ID"@, "STELLAR_ACCOUNT"@][k]);
    lemma_join_with_contains(issues, "; "@, idx);
}

/// What a successful `validate` implies of the project.
proof fn lemma_validate_ok_shape(dir: Seq<char>, p: ProjectProbe)
    requires
        validation_result(dir, p) is Ok,
    ensures
        ({
            &&& p.env_example matches EnvExample::Text(raw) && contains(raw@, "STELLAR_SECRET_KEY"@)
                && contains(raw@, "AGENTPAY_CONTRACT_ID"@) && contains(raw@, "STELLAR_ACCOUNT"@)
            &&& p.manifest && p.contract_lib && p.readme && p.gitignore && p.config_file
            &&& (p.package_json && p.index_ts) || (p.pyproject && p.server_py)
        })
,
{
    let issues = validation_issues(dir, p);
    let layout = layout_issues(dir, p);
    assert(issues.len() == 0);
    assert(layout.len() == 0);
    if p.env_example is Text {
        assert(env_key_issues(p.env_example->Text_0@).len() == 0);
    }
}

/// Which problems a readable `.env.example` that lacks a key makes
/// `validate` report.
proof fn lemma_validate_missing_keys(dir: Seq<char>, p: ProjectProbe)
    ensures
        p.env_example matches EnvExample::Text(raw) ==> (config_accepted(p.config) ==> {
            &&& !contains(raw@, "STELLAR_SECRET_KEY"@) ==> (validation_result(dir, p) matches Err(
                ErrorView::ValidationFailed(m),
            ) && contains(m, ".env.example missing STELLAR_SECRET_KEY"@))
            &&& !contains(raw@, "AGENTPAY_CONTRACT_ID"@) ==> (validation_result(dir, p) matches Err(
                ErrorView::ValidationFailed(m),
            ) && contains(m, ".env.example missing AGENTPAY_CONTRACT_ID"@))
            &&& !contains(raw@, "STELLAR_ACCOUNT"@) ==> (validation_result(dir, p) matches Err(
                ErrorView::ValidationFailed(m),
            ) && contains(m, ".env.example missing STELLAR_ACCOUNT"@))
        }),
{
    reveal_strlit(".env.example missing ");
    reveal_strlit("STELLAR_SECRET_KEY");
    reveal_strlit("AGENTPAY_CONTRACT_ID");
    reveal_strlit("STELLAR_ACCOUNT");
    reveal_strlit(".env.example missing STELLAR_SECRET_KEY");
    reveal_strlit(".env.example missing AGENTPAY_CONTRACT_ID");
    reveal_strlit(".env.example missing STELLAR_ACCOUNT");
    assert(".env.example missing "@ + "STELLAR_SECRET_KEY"@ =~= ".env.example missing STELLAR_SECRET_KEY"@);
    assert(".env.example missing "@ + "AGENTPAY_CONTRACT_ID"@ =~= ".env.example missing AGENTPAY_CONTRACT_ID"@);
    assert(".env.example missing "@ + "STELLAR_ACCOUNT"@ =~= ".env.example missing STELLAR_ACCOUNT"@);
    if p.env_example is Text && config_accepted(p.config) {
        let raw = p.env_example->Text_0@;
        let keys = seq!["STELLAR_SECRET_KEY"@, "AGENTPAY_CONTRACT_ID"@, "STELLAR_ACCOUNT"@];
        if !contains(raw, keys[0]) {
            lemma_missing_key_reported(dir, p, 0);
        }
        if !contains(raw, keys[1]) {
            lemma_missing_key_reported(dir, p, 1);
        }
        if !contains(raw, keys[2]) {
            lemma_missing_key_reported(dir, p, 2);
        }
    }
}

/// `validate` succeeds only on a project whose `.env.example` could be
/// read and names `STELLAR_SECRET_KEY`, `AGENTPAY_CONTRACT_ID` and
/// `STELLAR_ACCOUNT`, and that has the contract manifest and source, a
/// TypeScript or Python agent, `README.md`, `.gitignore` and
/// `agent-devex.toml`. A readable `.env.example` that lacks one of the keys
/// fails it, with `.env.example missing <key>` among the problems listed,
/// unless a broken config stopped it first.
pub proof fn lemma_validate_needs_env_keys(dir: Seq<char>, p: ProjectProbe)
    ensures
        validation_result(dir, p) is Ok ==> {
            &&& p.env_example matches EnvExample::Text(raw) && contains(raw@, "STELLAR_SECRET_KEY"@)
                && contains(raw@, "AGENTPAY_CONTRACT_ID"@) && contains(raw@, "STELLAR_ACCOUNT"@)
            &&& p.manifest && p.contract_lib && p.readme && p.gitignore && p.config_file
            &&& (p.package_json && p.index_ts) || (p.pyproject && p.server_py)
        },
        p.env_example matches EnvExample::Text(raw) ==> (config_accepted(p.config) ==> {
            &&& !contains(raw@, "STELLAR_SECRET_KEY"@) ==> (validation_result(dir, p) matches Err(
                ErrorView::ValidationFailed(m),
            ) && contains(m, ".env.example missing STELLAR_SECRET_KEY"@))
            &&& !contains(raw@, "AGENTPAY_CONTRACT_ID"@) ==> (validation_result(dir, p) matches Err(
                ErrorView::ValidationFailed(m),
            ) && contains(m, ".env.example missing AGENTPAY_CONTRACT_ID"@))
            &&& !contains(raw@, "STELLAR_ACCOUNT"@) ==> (validation_result(dir, p) matches Err(
                ErrorView::ValidationFailed(m),
            ) && contains(m, ".env.example missing STELLAR_ACCOUNT"@))
        }),
{
    if validation_result(dir, p) is Ok {
        lemma_validate_ok_shape(dir, p);
    }
    lemma_validate_missing_keys(dir, p);
}

} // verus!
