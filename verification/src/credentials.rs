//! Layered credential resolution for a push: what the caller gave, then a
//! stored secret, then the local agent, then the platform default.

use vstd::prelude::*;
use crate::backend::{
    backend_error, config_string, cred_agent, cred_default, cred_plaintext, find_remote,
    repo_config,
};
use crate::error::{GitError, GitErrorView};
use crate::store::{entry_for, entry_secret};
use crate::model::texts;
use crate::remote::{fetch_user, remote_url_key};

verus! {

/// The key under which the secrets of a remote are stored: the application's
/// namespace, then the URL of the remote.
pub open spec fn service_of(remote_url: Seq<char>) -> Seq<char> {
    "agentic-ide:git:"@ + remote_url
}

/// Builds the storage key of `remote_url`.
pub fn service_key(remote_url: &str) -> (r: String)
    ensures
        r@ == service_of(remote_url@),
{
    let mut out = String::from_str("agentic-ide:git:");
    out.append(remote_url);
    out
}

/// The accounts under which a stored secret is looked for, in this order.
pub open spec fn candidate_texts() -> Seq<Seq<char>> {
    seq!["git"@, "github"@, "oauth"@, "token"@]
}

/// The accounts that are probed for a stored secret. The store answers exact
/// lookups only, so a fixed list of conventional names is tried.
pub fn candidate_accounts() -> (r: Vec<String>)
    ensures
        texts(r@) == candidate_texts(),
{
    let mut out: Vec<String> = Vec::new();
    out.push(String::from_str("git"));
    out.push(String::from_str("github"));
    out.push(String::from_str("oauth"));
    out.push(String::from_str("token"));
    assert(texts(out@) == candidate_texts());
    out
}

/// A user name and a secret, each of which may be missing.
#[derive(Clone, Debug)]
pub struct Credentials {
    pub username: Option<String>,
    pub password: Option<String>,
}

/// The text of an optional string.
pub open spec fn opt_text(s: Option<String>) -> Option<Seq<char>> {
    match s {
        Some(t) => Some(t@),
        None => None,
    }
}

/// The text of an optional string slice.
pub open spec fn opt_str_text(s: Option<&str>) -> Option<Seq<char>> {
    match s {
        Some(t) => Some(t@),
        None => None,
    }
}

/// The user name of a stored pair.
pub open spec fn stored_username(stored: Option<(String, String)>) -> Option<Seq<char>> {
    match stored {
        Some((username, _)) => Some(username@),
        None => None,
    }
}

/// The secret of a stored pair.
pub open spec fn stored_secret(stored: Option<(String, String)>) -> Option<Seq<char>> {
    match stored {
        Some((_, secret)) => Some(secret@),
        None => None,
    }
}

/// Each field is the caller's when the caller gave it, else the stored one.
pub open spec fn resolved_of(
    explicit: Option<Seq<char>>,
    stored: Option<Seq<char>>,
) -> Option<Seq<char>> {
    if explicit is Some {
        explicit
    } else {
        stored
    }
}

/// Resolves the credentials of a push: what the caller supplied for this
/// call wins, field by field, over the stored pair.
pub fn resolve_credentials(
    username: Option<&str>,
    password: Option<&str>,
    stored: Option<(String, String)>,
) -> (r: Credentials)
    ensures
        opt_text(r.username) == resolved_of(
            opt_str_text(username),
            stored_username(stored),
        ),
        opt_text(r.password) == resolved_of(
            opt_str_text(password),
            stored_secret(stored),
        ),
{
    let (stored_user, stored_secret) = match stored {
        Some((u, p)) => (Some(u), Some(p)),
        None => (None, None),
    };
    let username = match username {
        Some(u) => Some(String::from_str(u)),
        None => stored_user,
    };
    let password = match password {
        Some(p) => Some(String::from_str(p)),
        None => stored_secret,
    };
    Credentials { username, password }
}

/// One way of answering the transport's request for a credential.
#[derive(Clone, Debug)]
pub enum CredentialAttempt {
    /// Offer the user name and secret in plain text.
    Plaintext { username: String, password: String },
    /// Ask the local agent for a key of this user.
    Agent { username: String },
    /// Fall back to the platform's default mechanism.
    PlatformDefault,
}

/// An attempt with the texts of its strings.
pub enum AttemptView {
    Plaintext { username: Seq<char>, password: Seq<char> },
    Agent { username: Seq<char> },
    PlatformDefault,
}

impl View for CredentialAttempt {
    type V = AttemptView;

    open spec fn view(&self) -> AttemptView {
        match self {
            CredentialAttempt::Plaintext { username, password } => AttemptView::Plaintext {
                username: username@,
                password: password@,
            },
            CredentialAttempt::Agent { username } => AttemptView::Agent { username: username@ },
            CredentialAttempt::PlatformDefault => AttemptView::PlatformDefault,
        }
    }
}

/// The views of a list of attempts.
pub open spec fn attempt_views(plan: Seq<CredentialAttempt>) -> Seq<AttemptView> {
    plan.map_values(|a: CredentialAttempt| a@)
}

/// The agent lookups of a plan: the user of the URL first, then the
/// resolved user.
pub open spec fn agent_attempts_of(
    url_user: Option<Seq<char>>,
    username: Option<Seq<char>>,
) -> Seq<AttemptView> {
    let first = match url_user {
        Some(u) => seq![AttemptView::Agent { username: u }],
        None => Seq::empty(),
    };
    let second = match username {
        Some(u) => seq![AttemptView::Agent { username: u }],
        None => Seq::empty(),
    };
    first + second
}

/// The attempts made for one request of the transport, in order. Plain text
/// is offered only when the transport accepts it and both fields are
/// known, and nothing else is tried then. Otherwise the agent is asked, when
/// the transport accepts keys, and the platform default comes last.
pub open spec fn plan_of(
    accepts_plaintext: bool,
    accepts_key: bool,
    url_user: Option<Seq<char>>,
    username: Option<Seq<char>>,
    password: Option<Seq<char>>,
) -> Seq<AttemptView> {
    if accepts_plaintext && username is Some && password is Some {
        seq![AttemptView::Plaintext { username: username->0, password: password->0 }]
    } else if accepts_key {
        agent_attempts_of(url_user, username).push(AttemptView::PlatformDefault)
    } else {
        seq![AttemptView::PlatformDefault]
    }
}

/// A plan can be carried out when it ends in an attempt whose outcome is
/// final: only a lookup at the agent is followed by another attempt.
pub open spec fn plan_wf(plan: Seq<AttemptView>) -> bool {
    plan.len() > 0 && !(plan.last() is Agent)
}

/// Lays out the attempts for one request of the transport.
pub fn credential_plan(
    accepts_plaintext: bool,
    accepts_key: bool,
    url_user: Option<&str>,
    username: Option<&str>,
    password: Option<&str>,
) -> (r: Vec<CredentialAttempt>)
    ensures
        attempt_views(r@) == plan_of(
            accepts_plaintext,
            accepts_key,
            opt_str_text(url_user),
            opt_str_text(username),
            opt_str_text(password),
        ),
        plan_wf(attempt_views(r@)),
{
    let mut plan: Vec<CredentialAttempt> = Vec::new();
    if accepts_plaintext {
        if let (Some(u), Some(p)) = (username, password) {
            plan.push(
                CredentialAttempt::Plaintext {
                    username: String::from_str(u),
                    password: String::from_str(p),
                },
            );
            assert(attempt_views(plan@) == seq![
                AttemptView::Plaintext { username: u@, password: p@ },
            ]);
            return plan;
        }
    }
    if accepts_key {
        if let Some(u) = url_user {
            plan.push(CredentialAttempt::Agent { username: String::from_str(u) });
        }
        if let Some(u) = username {
            plan.push(CredentialAttempt::Agent { username: String::from_str(u) });
        }
    }
    plan.push(CredentialAttempt::PlatformDefault);
    assert(attempt_views(plan@) == plan_of(
        accepts_plaintext,
        accepts_key,
        opt_str_text(url_user),
        opt_str_text(username),
        opt_str_text(password),
    ));
    plan
}

/// When the caller gives no credentials and a pair is stored, the stored
/// pair is what a transport that accepts plain text is offered, and nothing
/// else.
pub proof fn lemma_stored_secret_is_offered(
    stored_user: Seq<char>,
    stored_secret: Seq<char>,
    accepts_key: bool,
    url_user: Option<Seq<char>>,
)
    ensures
        plan_of(
            true,
            accepts_key,
            url_user,
            resolved_of(None, Some(stored_user)),
            resolved_of(None, Some(stored_secret)),
        ) == seq![AttemptView::Plaintext { username: stored_user, password: stored_secret }],
{
}

/// When the caller gives no credentials and none is stored, no secret is
/// offered in plain text: the plan asks the agent at most and ends with the
/// platform default.
pub proof fn lemma_no_secret_falls_through(
    accepts_plaintext: bool,
    accepts_key: bool,
    url_user: Option<Seq<char>>,
)
    ensures
        ({
            let plan = plan_of(
                accepts_plaintext,
                accepts_key,
                url_user,
                resolved_of(None, None),
                resolved_of(None, None),
            );
            &&& plan.len() > 0
            &&& plan.last() == AttemptView::PlatformDefault
            &&& forall|i: int| 0 <= i < plan.len() ==> !(#[trigger] plan[i] is Plaintext)
        }),
{
}

/// What the caller gives for this call wins over what is stored.
pub proof fn lemma_explicit_wins(explicit: Seq<char>, stored: Option<Seq<char>>)
    ensures
        resolved_of(Some(explicit), stored) == Some(explicit),
{
}

/// The URL of the remote as the configuration holds it under
/// `remote.<name>.url`: none when the key is missing, cannot be read as text,
/// or is empty, as for a remote that is configured with a push URL alone.
/// This is the URL as configured, before any rewriting rule is applied.
fn configured_url(repo: &git2::Repository, remote_name: &str) -> (r: Option<String>)
    ensures
        r matches Some(url) ==> url@.len() > 0,
{
    let key = remote_url_key(remote_name);
    let config = match repo_config(repo) {
        Ok(config) => config,
        Err(_) => { return None; },
    };
    match config_string(&config, key.as_str()) {
        Ok(url) => {
            if url.as_str().is_empty() {
                None
            } else {
                Some(url)
            }
        },
        Err(_) => None,
    }
}

/// The text of the failure for a remote whose URL cannot be had.
pub open spec fn missing_url_text() -> Seq<char> {
    "Remote URL is missing or invalid"@
}

/// The URL of a remote as it was read, or the failure that stands for a URL
/// that is missing or is not text.
pub fn url_or_failure(read: Option<String>) -> (r: Result<String, GitError>)
    ensures
        match read {
            Some(url) => r == Ok::<String, GitError>(url),
            None => r matches Err(e) && e@ == GitErrorView::Backend(missing_url_text()),
        },
{
    match read {
        Some(url) => Ok(url),
        None => Err(GitError::Backend(String::from_str("Remote URL is missing or invalid"))),
    }
}

/// The URL of the remote `remote_name`, as configured. A remote that does
/// not exist is a failure of the backend; one without a URL, or with one that
/// cannot be read as text, is the failure of a missing URL.
pub(crate) fn url_of_remote(repo: &git2::Repository, remote_name: &str) -> (r: Result<
    String,
    GitError,
>)
    ensures
        r matches Ok(url) ==> url@.len() > 0,
        r matches Err(e) ==> e@ is Backend,
{
    if let Err(e) = find_remote(repo, remote_name) {
        return Err(backend_error(&e));
    }
    url_or_failure(configured_url(repo, remote_name))
}

/// The texts of what the store answered to a row of lookups.
pub open spec fn answer_texts(answers: Seq<Option<String>>) -> Seq<Option<Seq<char>>> {
    answers.map_values(|a: Option<String>| opt_text(a))
}

/// The first account, from place `from` on, whose lookup gave a secret, with
/// that secret; none when no lookup gave one. A place without an account or
/// without an answer ends the search.
pub open spec fn first_stored_from(
    accounts: Seq<Seq<char>>,
    answers: Seq<Option<Seq<char>>>,
    from: int,
) -> Option<(Seq<char>, Seq<char>)>
    decreases answers.len() - from,
{
    if from < 0 || from >= answers.len() || from >= accounts.len() {
        None
    } else if answers[from] is Some {
        Some((accounts[from], answers[from]->0))
    } else {
        first_stored_from(accounts, answers, from + 1)
    }
}

/// The account that wins a lookup, with its secret: the first in the order
/// of the accounts that has one.
pub open spec fn first_stored_of(
    accounts: Seq<Seq<char>>,
    answers: Seq<Option<Seq<char>>>,
) -> Option<(Seq<char>, Seq<char>)> {
    first_stored_from(accounts, answers, 0)
}

/// `r` is what a lookup returns for the pair that won, or for none.
pub open spec fn is_lookup_result(
    r: Result<(String, String), GitError>,
    won: Option<(Seq<char>, Seq<char>)>,
) -> bool {
    match won {
        Some((account, secret)) => r matches Ok(pair) && pair.0@ == account && pair.1@ == secret,
        None => r matches Err(e) && e@ == GitErrorView::CredentialNotFound,
    }
}

/// Picks the stored pair from what the store answered for each account in
/// turn: the first account with a secret wins, with that secret, and
/// `CredentialNotFound` is returned exactly when no account has one.
pub fn first_stored(accounts: &Vec<String>, answers: &Vec<Option<String>>) -> (r: Result<
    (String, String),
    GitError,
>)
    ensures
        is_lookup_result(r, first_stored_of(texts(accounts@), answer_texts(answers@))),
{
    let mut i: usize = 0;
    while i < answers.len() && i < accounts.len()
        invariant
            i <= answers.len(),
            i <= accounts.len(),
            first_stored_of(texts(accounts@), answer_texts(answers@)) == first_stored_from(
                texts(accounts@),
                answer_texts(answers@),
                i as int,
            ),
        decreases answers.len() - i,
    {
        if let Some(secret) = &answers[i] {
            return Ok((accounts[i].clone(), secret.clone()));
        }
        i += 1;
    }
    Err(GitError::CredentialNotFound)
}

/// The answers in `answers` are those of lookups made in turn until one gave
/// a secret: there is at most one answer for each account, no answer but
/// the last holds a secret, and the row ends early only on a secret.
pub open spec fn is_lookup_row(accounts: nat, answers: Seq<Option<Seq<char>>>) -> bool {
    &&& answers.len() <= accounts
    &&& forall|k: int| 0 <= k < answers.len() - 1 ==> #[trigger] answers[k] is None
    &&& answers.len() < accounts ==> answers.len() > 0 && answers.last() is Some
}

/// Asks the store for the secret of each account in turn, under `service`,
/// and stops at the first secret. An account that cannot be looked up counts
/// as having none.
fn probe_accounts(service: &str, accounts: &Vec<String>) -> (answers: Vec<Option<String>>)
    ensures
        is_lookup_row(accounts@.len(), answer_texts(answers@)),
{
    let mut answers: Vec<Option<String>> = Vec::new();
    while answers.len() < accounts.len()
        invariant
            answers@.len() <= accounts@.len(),
            forall|k: int| 0 <= k < answers@.len() ==> #[trigger] answer_texts(answers@)[k] is None,
        decreases accounts@.len() - answers@.len(),
    {
        let answer = match entry_for(service, accounts[answers.len()].as_str()) {
            Ok(entry) => match entry_secret(&entry) {
                Ok(secret) => Some(secret),
                Err(_) => None,
            },
            Err(_) => None,
        };
        let found = answer.is_some();
        let ghost before = answers@;
        answers.push(answer);
        assert(answer_texts(answers@) == answer_texts(before).push(opt_text(answer)));
        if found {
            return answers;
        }
    }
    answers
}

/// `r` is the outcome of a lookup of the candidate accounts in which the
/// store gave `answers`.
pub open spec fn is_candidate_lookup(
    r: Result<(String, String), GitError>,
    answers: Seq<Option<Seq<char>>>,
) -> bool {
    &&& is_lookup_row(candidate_texts().len(), answers)
    &&& is_lookup_result(r, first_stored_of(candidate_texts(), answers))
}

/// Looks for a stored secret of the remote under each candidate account in
/// turn; the first account that has one wins. A remote whose URL cannot be
/// had is a failure of the backend; with the URL, the result is that of the
/// answers that the store gave.
pub(crate) fn load_stored_credentials(repo: &git2::Repository, remote_name: &str) -> (r: Result<
    (String, String),
    GitError,
>)
    ensures
        (r matches Err(e) && e@ is Backend) || exists|answers: Seq<Option<Seq<char>>>|
            #[trigger] is_candidate_lookup(r, answers),
        r matches Ok(pair) ==> candidate_texts().contains(pair.0@),
        r matches Err(e) ==> e@ is Backend || e@ is CredentialNotFound,
{
    let url = url_of_remote(repo, remote_name)?;
    let service = service_key(url.as_str());
    let accounts = candidate_accounts();
    let answers = probe_accounts(service.as_str(), &accounts);
    let r = first_stored(&accounts, &answers);
    proof {
        assert(is_candidate_lookup(r, answer_texts(answers@)));
        lemma_winner_is_an_account(candidate_texts(), answer_texts(answers@), 0);
    }
    r
}

/// The account that wins a lookup is one of the accounts.
pub proof fn lemma_winner_is_an_account(
    accounts: Seq<Seq<char>>,
    answers: Seq<Option<Seq<char>>>,
    from: int,
)
    requires
        0 <= from,
    ensures
        first_stored_from(accounts, answers, from) matches Some(won) ==> accounts.contains(won.0),
    decreases answers.len() - from,
{
    if from < answers.len() && from < accounts.len() && answers[from] is None {
        lemma_winner_is_an_account(accounts, answers, from + 1);
    }
}

/// A failure of the secret store in plain values.
#[derive(Clone, Debug)]
pub struct StoreFailure {
    /// The store holds no entry for the service and the account.
    pub no_entry: bool,
    /// The failure as the store shows it.
    pub text: String,
}

/// The result of clearing a secret, from what the store answered to the
/// removal: a secret that was removed and a secret that was not there are
/// both a success; any other failure is returned with the store's text.
pub fn clear_result(removed: Result<(), StoreFailure>) -> (r: Result<(), GitError>)
    ensures
        match removed {
            Ok(()) => r is Ok,
            Err(failure) => if failure.no_entry {
                r is Ok
            } else {
                r matches Err(e) && e@ == GitErrorView::Backend(failure.text@)
            },
        },
{
    match removed {
        Ok(()) => Ok(()),
        Err(failure) => {
            if failure.no_entry {
                Ok(())
            } else {
                Err(GitError::Backend(failure.text))
            }
        },
    }
}

/// The attempt `at` is the one that decides when a plan is carried out from
/// `from` on: every attempt before it is a lookup at the agent, and it is
/// itself a lookup at the agent only if that lookup found a key.
pub open spec fn decides_at(plan: Seq<AttemptView>, from: int, at: int, found: bool) -> bool {
    &&& from <= at < plan.len()
    &&& forall|k: int| from <= k < at ==> #[trigger] plan[k] is Agent
    &&& plan[at] is Agent ==> found
}

/// Carries out a plan from its attempt `from` on: an attempt in plain text
/// or by the platform default decides; a lookup at the agent decides when it
/// finds a key, and is followed by the next attempt when it does not. The
/// result comes with the place of the attempt that decided.
fn run_plan(plan: &Vec<CredentialAttempt>, from: usize) -> (r: (
    Result<git2::Cred, git2::Error>,
    Ghost<int>,
))
    requires
        from < plan.len(),
        plan_wf(attempt_views(plan@)),
    ensures
        decides_at(attempt_views(plan@), from as int, r.1@, r.0 is Ok),
    decreases plan.len() - from,
{
    assert(attempt_views(plan@)[from as int] == plan@[from as int]@);
    match &plan[from] {
        CredentialAttempt::Plaintext { username, password } => (
            cred_plaintext(username.as_str(), password.as_str()),
            Ghost(from as int),
        ),
        CredentialAttempt::PlatformDefault => (cred_default(), Ghost(from as int)),
        CredentialAttempt::Agent { username } => match cred_agent(username.as_str()) {
            Ok(cred) => (Ok(cred), Ghost(from as int)),
            Err(_) => {
                assert(attempt_views(plan@).last() == attempt_views(plan@)[plan@.len() - 1]);
                run_plan(plan, from + 1)
            },
        },
    }
}

/// Answers a request of the transport during a push: lays out the plan for
/// the kinds that the transport accepts and carries it out from its first
/// attempt on. The answer comes with the place, in that plan, of the attempt
/// that decided.
pub(crate) fn offer_credential(
    accepts_plaintext: bool,
    accepts_key: bool,
    url_user: Option<&str>,
    username: Option<&str>,
    password: Option<&str>,
) -> (r: (Result<git2::Cred, git2::Error>, Ghost<int>))
    ensures
        decides_at(
            plan_of(
                accepts_plaintext,
                accepts_key,
                opt_str_text(url_user),
                opt_str_text(username),
                opt_str_text(password),
            ),
            0,
            r.1@,
            r.0 is Ok,
        ),
{
    let plan = credential_plan(accepts_plaintext, accepts_key, url_user, username, password);
    run_plan(&plan, 0)
}

/// Answers a request of the transport during a fetch: a key of the agent,
/// for the user in the URL or for `git`.
pub(crate) fn offer_agent_credential(url_user: Option<&str>) -> (r: Result<
    git2::Cred,
    git2::Error,
>) {
    let user = fetch_user(url_user);
    cred_agent(user.as_str())
}

} // verus!
