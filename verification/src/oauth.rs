//! The per-workspace credential store, and the decisions of the OAuth flow
//! that fills it.
//!
//! The exchange of an authorization code for a token is network traffic and
//! happens outside this library; what the library decides is when to ask for
//! the exchange, what to store when it comes back, and what to answer.

use crate::text::str_equal;
use vstd::prelude::*;
use vstd::string::StringExecFns;

verus! {

/// The credential of one workspace, as an OAuth exchange hands it out.
#[derive(Debug, PartialEq, Eq)]
pub struct TokenResponse {
    /// The token that authorises calls on behalf of the workspace.
    pub access_token: String,
}

impl View for TokenResponse {
    type V = Seq<char>;

    open spec fn view(&self) -> Seq<char> {
        self.access_token@
    }
}

impl Clone for TokenResponse {
    fn clone(&self) -> (r: Self)
        ensures
            r@ == self@,
    {
        TokenResponse { access_token: self.access_token.clone() }
    }
}

/// One entry of the store.
struct Entry {
    team_id: String,
    token: TokenResponse,
}

/// The map that a sequence of entries stands for; a later entry for a
/// workspace overrides an earlier one.
spec fn entries_map(entries: Seq<Entry>) -> Map<Seq<char>, Seq<char>>
    decreases entries.len(),
{
    if entries.len() == 0 {
        Map::empty()
    } else {
        entries_map(entries.drop_last()).insert(entries.last().team_id@, entries.last().token@)
    }
}

/// A workspace without an entry is no key of the map.
proof fn lemma_entries_map_without(entries: Seq<Entry>, team_id: Seq<char>)
    requires
        forall|j: int| 0 <= j < entries.len() ==> (#[trigger] entries[j]).team_id@ != team_id,
    ensures
        !entries_map(entries).contains_key(team_id),
    decreases entries.len(),
{
    if entries.len() > 0 {
        let shorter = entries.drop_last();
        assert forall|j: int| 0 <= j < shorter.len() implies (#[trigger] shorter[j]).team_id@
            != team_id by {
            assert(entries[j].team_id@ != team_id);
        }
        lemma_entries_map_without(shorter, team_id);
        assert(entries[entries.len() - 1].team_id@ != team_id);
    }
}

/// The map gives a workspace the token of its last entry.
proof fn lemma_entries_map_last_entry(entries: Seq<Entry>, i: int)
    requires
        0 <= i < entries.len(),
        forall|j: int|
            i < j < entries.len() ==> (#[trigger] entries[j]).team_id@ != entries[i].team_id@,
    ensures
        entries_map(entries).contains_key(entries[i].team_id@),
        entries_map(entries)[entries[i].team_id@] == entries[i].token@,
    decreases entries.len(),
{
    if i < entries.len() - 1 {
        let shorter = entries.drop_last();
        assert forall|j: int| i < j < shorter.len() implies (#[trigger] shorter[j]).team_id@
            != shorter[i].team_id@ by {
            assert(entries[j].team_id@ != entries[i].team_id@);
        }
        lemma_entries_map_last_entry(shorter, i);
        assert(entries[entries.len() - 1].team_id@ != entries[i].team_id@);
    }
}

/// Replacing the last entry of a workspace stores the new token under it and
/// leaves every other workspace alone.
proof fn lemma_entries_map_update(entries: Seq<Entry>, i: int, entry: Entry)
    requires
        0 <= i < entries.len(),
        entries[i].team_id@ == entry.team_id@,
        forall|j: int|
            i < j < entries.len() ==> (#[trigger] entries[j]).team_id@ != entry.team_id@,
    ensures
        entries_map(entries.update(i, entry)) == entries_map(entries).insert(
            entry.team_id@,
            entry.token@,
        ),
    decreases entries.len(),
{
    let updated = entries.update(i, entry);
    let shorter = entries.drop_last();
    if i == entries.len() - 1 {
        assert(updated.drop_last() =~= shorter);
        assert(entries_map(updated) =~= entries_map(entries).insert(
            entry.team_id@,
            entry.token@,
        ));
    } else {
        assert forall|j: int| i < j < shorter.len() implies (#[trigger] shorter[j]).team_id@
            != entry.team_id@ by {
            assert(entries[j].team_id@ != entry.team_id@);
        }
        lemma_entries_map_update(shorter, i, entry);
        assert(updated.drop_last() =~= shorter.update(i, entry));
        assert(entries[entries.len() - 1].team_id@ != entry.team_id@);
        assert(entries_map(updated) =~= entries_map(entries).insert(
            entry.team_id@,
            entry.token@,
        ));
    }
}

/// The credential store: one credential for each workspace that has
/// authorised the application.
///
/// The store stands for a map from workspace identifier to access token.
/// Nothing is ever removed from it; storing a credential for a workspace that
/// has one replaces it whole. Writing takes the store by exclusive reference,
/// so no reader can see a credential half replaced.
pub struct TokenStorage {
    tokens: Vec<Entry>,
}

impl View for TokenStorage {
    type V = Map<Seq<char>, Seq<char>>;

    closed spec fn view(&self) -> Map<Seq<char>, Seq<char>> {
        entries_map(self.tokens@)
    }
}

/// The credential stored for a workspace, if there is one.
pub open spec fn stored(store: Map<Seq<char>, Seq<char>>, team_id: Seq<char>) -> Option<
    Seq<char>,
> {
    if store.contains_key(team_id) {
        Some(store[team_id])
    } else {
        None
    }
}

/// The view of a credential that was looked up.
pub open spec fn found_view(found: Option<&TokenResponse>) -> Option<Seq<char>> {
    match found {
        Some(token) => Some(token@),
        None => None,
    }
}

impl TokenStorage {
    /// An empty store.
    pub fn new() -> (r: Self)
        ensures
            r@ == Map::<Seq<char>, Seq<char>>::empty(),
    {
        TokenStorage { tokens: Vec::new() }
    }

    /// The place of the last entry of a workspace, if it has one.
    fn position(&self, team_id: &str) -> (r: Option<usize>)
        ensures
            match r {
                Some(i) => {
                    &&& i < self.tokens@.len()
                    &&& self.tokens@[i as int].team_id@ == team_id@
                    &&& forall|j: int|
                        i < j < self.tokens@.len() ==> (#[trigger] self.tokens@[j]).team_id@
                            != team_id@
                },
                None => forall|j: int|
                    0 <= j < self.tokens@.len() ==> (#[trigger] self.tokens@[j]).team_id@
                        != team_id@,
            },
    {
        let mut i: usize = self.tokens.len();
        while i > 0
            invariant
                i <= self.tokens@.len(),
                forall|j: int|
                    i <= j < self.tokens@.len() ==> (#[trigger] self.tokens@[j]).team_id@
                        != team_id@,
            decreases i,
        {
            i = i - 1;
            if str_equal(self.tokens[i].team_id.as_str(), team_id) {
                return Some(i);
            }
        }
        None
    }

    /// Stores the credential of a workspace, in place of the one that the
    /// workspace had, if it had one.
    pub fn store_token(&mut self, team_id: String, token: TokenResponse)
        ensures
            final(self)@ == old(self)@.insert(team_id@, token@),
    {
        let found = self.position(team_id.as_str());
        let entry = Entry { team_id, token };
        match found {
            Some(i) => {
                proof {
                    lemma_entries_map_update(self.tokens@, i as int, entry);
                }
                self.tokens.set(i, entry);
            },
            None => {
                assert(self.tokens@.push(entry).drop_last() =~= self.tokens@);
                self.tokens.push(entry);
            },
        }
    }

    /// The credential stored for a workspace, if there is one.
    pub fn get_token(&self, team_id: &str) -> (r: Option<&TokenResponse>)
        ensures
            found_view(r) == stored(self@, team_id@),
    {
        match self.position(team_id) {
            Some(i) => {
                proof {
                    lemma_entries_map_last_entry(self.tokens@, i as int);
                }
                Some(&self.tokens[i].token)
            },
            None => {
                proof {
                    lemma_entries_map_without(self.tokens@, team_id@);
                }
                None
            },
        }
    }
}

impl Default for TokenStorage {
    fn default() -> (r: Self)
        ensures
            r@ == Map::<Seq<char>, Seq<char>>::empty(),
    {
        TokenStorage::new()
    }
}

/// A credential that has just been stored for a workspace is the one found
/// under that workspace, whole, and the credentials of all other workspaces
/// are what they were.
pub proof fn lemma_store_then_get(
    store: Map<Seq<char>, Seq<char>>,
    team_id: Seq<char>,
    token: Seq<char>,
    other: Seq<char>,
)
    ensures
        stored(store.insert(team_id, token), team_id) == Some(token),
        other != team_id ==> stored(store.insert(team_id, token), other) == stored(store, other),
{
}

/// Whoever looks up a workspace around the time its first credential is
/// stored finds nothing or the whole credential. A write needs the store to
/// itself, so a reader reads the store as it was before the write or as it is
/// after it, and these are the two views that can be seen.
pub proof fn lemma_reader_sees_nothing_or_the_whole(
    store: Map<Seq<char>, Seq<char>>,
    team_id: Seq<char>,
    token: Seq<char>,
    seen: Option<Seq<char>>,
)
    requires
        !store.contains_key(team_id),
        seen == stored(store, team_id) || seen == stored(store.insert(team_id, token), team_id),
    ensures
        seen is None || seen == Some(token),
{
}

// ---------------------------------------------------------------------------
// The OAuth flow
// ---------------------------------------------------------------------------

/// The settings of the OAuth application.
#[derive(Debug)]
pub struct OAuthConfig {
    /// The identifier that Slack gave the application.
    pub client_id: String,
    /// The secret that goes with the identifier.
    pub client_secret: String,
    /// Where Slack sends the user back to after authorisation.
    pub redirect_uri: String,
}

impl Clone for OAuthConfig {
    fn clone(&self) -> (r: Self)
        ensures
            r.client_id@ == self.client_id@,
            r.client_secret@ == self.client_secret@,
            r.redirect_uri@ == self.redirect_uri@,
    {
        OAuthConfig {
            client_id: self.client_id.clone(),
            client_secret: self.client_secret.clone(),
            redirect_uri: self.redirect_uri.clone(),
        }
    }
}

/// The address at which a user authorises the application, for a given
/// client identifier: the scopes asked for are `channels:history`,
/// `chat:write` and `commands`.
pub open spec fn authorize_url_text(client_id: Seq<char>) -> Seq<char> {
    "https://slack.com/oauth/v2/authorize?client_id="@ + client_id + "&scope="@
        + "channels:history"@ + ","@ + "chat:write"@ + ","@ + "commands"@
}

impl OAuthConfig {
    /// Settings with the given identifier, secret and redirect address.
    pub fn new(client_id: String, client_secret: String, redirect_uri: String) -> (r: Self)
        ensures
            r.client_id@ == client_id@,
            r.client_secret@ == client_secret@,
            r.redirect_uri@ == redirect_uri@,
    {
        OAuthConfig { client_id, client_secret, redirect_uri }
    }

    /// The address to which the user is sent to authorise the application.
    pub fn authorize_url(&self) -> (r: String)
        ensures
            r@ == authorize_url_text(self.client_id@),
    {
        let mut url = String::from_str("https://slack.com/oauth/v2/authorize?client_id=");
        url.append(self.client_id.as_str());
        url.append("&scope=");
        url.append("channels:history");
        url.append(",");
        url.append("chat:write");
        url.append(",");
        url.append("commands");
        url
    }
}

/// What to do with a request that arrives at the OAuth callback address.
#[derive(Debug, PartialEq, Eq)]
pub enum CallbackStep {
    /// Exchange this authorization code for a credential.
    Exchange(String),
    /// Answer with this text; there is nothing to exchange.
    Respond(String),
}

/// The view of a [`CallbackStep`].
pub enum CallbackStepView {
    Exchange(Seq<char>),
    Respond(Seq<char>),
}

impl View for CallbackStep {
    type V = CallbackStepView;

    open spec fn view(&self) -> CallbackStepView {
        match self {
            CallbackStep::Exchange(code) => CallbackStepView::Exchange(code@),
            CallbackStep::Respond(text) => CallbackStepView::Respond(text@),
        }
    }
}

/// The first step at the callback address: a request that carries an
/// authorization code has the code exchanged, and one without is told that
/// the code is missing.
pub fn begin_callback(code: Option<String>) -> (r: CallbackStep)
    ensures
        r@ == match code {
            Some(code) => CallbackStepView::Exchange(code@),
            None => CallbackStepView::Respond("認証コードが見つかりません"@),
        },
{
    match code {
        Some(code) => CallbackStep::Exchange(code),
        None => CallbackStep::Respond(String::from_str("認証コードが見つかりません")),
    }
}

/// The answer to a request at the callback address once the exchange has
/// come back.
pub open spec fn callback_answer(outcome: Result<(String, TokenResponse), String>) -> Seq<char> {
    match outcome {
        Ok(_) => "OAuth認証成功！"@,
        Err(reason) => "OAuth認証エラー: "@ + reason@,
    }
}

/// The store after the exchange has come back: a granted credential is
/// stored under its workspace, and a failed exchange changes nothing.
pub open spec fn store_after_exchange(
    store: Map<Seq<char>, Seq<char>>,
    outcome: Result<(String, TokenResponse), String>,
) -> Map<Seq<char>, Seq<char>> {
    match outcome {
        Ok(granted) => store.insert(granted.0@, granted.1@),
        Err(_) => store,
    }
}

/// The last step at the callback address. `outcome` is what the exchange
/// gave: the workspace and its credential, or the reason why it failed. The
/// exchange is over before the store is touched.
pub fn complete_callback(
    storage: &mut TokenStorage,
    outcome: Result<(String, TokenResponse), String>,
) -> (r: String)
    ensures
        final(storage)@ == store_after_exchange(old(storage)@, outcome),
        r@ == callback_answer(outcome),
{
    match outcome {
        Ok((team_id, token)) => {
            storage.store_token(team_id, token);
            String::from_str("OAuth認証成功！")
        },
        Err(reason) => {
            let mut answer = String::from_str("OAuth認証エラー: ");
            answer.append(reason.as_str());
            answer
        },
    }
}

} // verus!
