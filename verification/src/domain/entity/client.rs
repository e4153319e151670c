use vstd::prelude::*;

use crate::support::text::{
    contains_str, copy_strings, split_whitespace, string_views, whitespace_tokens,
};

verus! {

/// A registered OAuth client: its identifier, display name, the redirect URIs it may use and
/// the scopes it may ask for.
#[derive(Debug, Clone, PartialEq)]
pub struct Client {
    id: u128,
    client_name: String,
    redirect_uris: Vec<String>,
    allowed_scopes: Vec<String>,
}

/// What a [`Client`] holds, as plain values.
pub struct ClientModel {
    pub id: u128,
    pub client_name: Seq<char>,
    pub redirect_uris: Seq<Seq<char>>,
    pub allowed_scopes: Seq<Seq<char>>,
}

impl View for Client {
    type V = ClientModel;

    closed spec fn view(&self) -> ClientModel {
        ClientModel {
            id: self.id,
            client_name: self.client_name@,
            redirect_uris: string_views(self.redirect_uris@),
            allowed_scopes: string_views(self.allowed_scopes@),
        }
    }
}

/// Whether every scope of `requested` is one the client may ask for.
pub open spec fn allows_scopes(client: ClientModel, requested: Seq<Seq<char>>) -> bool {
    forall|i: int| 0 <= i < requested.len() ==> client.allowed_scopes.contains(#[trigger] requested[i])
}

/// Asking for two lists of scopes at once is allowed exactly when each list is allowed.
pub proof fn law_scopes_allowed_jointly(
    client: ClientModel,
    a: Seq<Seq<char>>,
    b: Seq<Seq<char>>,
)
    ensures
        allows_scopes(client, a + b) <==> allows_scopes(client, a) && allows_scopes(client, b),
{
    if allows_scopes(client, a + b) {
        assert forall|i: int| 0 <= i < a.len() implies client.allowed_scopes.contains(
            #[trigger] a[i],
        ) by {
            assert((a + b)[i] == a[i]);
        }
        assert forall|i: int| 0 <= i < b.len() implies client.allowed_scopes.contains(
            #[trigger] b[i],
        ) by {
            assert((a + b)[a.len() + i] == b[i]);
        }
    }
    if allows_scopes(client, a) && allows_scopes(client, b) {
        assert forall|i: int| 0 <= i < (a + b).len() implies client.allowed_scopes.contains(
            #[trigger] (a + b)[i],
        ) by {
            if i < a.len() {
                assert((a + b)[i] == a[i]);
            } else {
                assert((a + b)[i] == b[i - a.len()]);
            }
        }
    }
}

/// A single scope is allowed exactly when it is one of the client's allowed scopes, and asking
/// for no scope is always allowed; so a client without allowed scopes allows no request that
/// asks for a scope.
pub proof fn law_scope_allowed_iff_registered(
    client: ClientModel,
    scope: Seq<char>,
    requested: Seq<Seq<char>>,
)
    ensures
        allows_scopes(client, seq![scope]) <==> client.allowed_scopes.contains(scope),
        allows_scopes(client, Seq::<Seq<char>>::empty()),
        client.allowed_scopes.len() == 0 && requested.len() > 0 ==> !allows_scopes(
            client,
            requested,
        ),
{
    if allows_scopes(client, seq![scope]) {
        assert(seq![scope][0] == scope);
    }
    if client.allowed_scopes.len() == 0 && requested.len() > 0 {
        assert(!client.allowed_scopes.contains(requested[0]));
    }
}

/// The plain values of an optional client.
pub open spec fn optional_client_view(client: Option<Client>) -> Option<ClientModel> {
    match client {
        Some(c) => Some(c@),
        None => None,
    }
}

impl Client {
    pub fn new(
        id: u128,
        client_name: String,
        redirect_uris: Vec<String>,
        allowed_scopes: Vec<String>,
    ) -> (client: Self)
        ensures
            client@.id == id,
            client@.client_name == client_name@,
            client@.redirect_uris == string_views(redirect_uris@),
            client@.allowed_scopes == string_views(allowed_scopes@),
    {
        Self { id, client_name, redirect_uris, allowed_scopes }
    }

    /// A copy of the client.
    pub fn duplicate(&self) -> (c: Self)
        ensures
            c@ == self@,
    {
        Self {
            id: self.id,
            client_name: self.client_name.clone(),
            redirect_uris: copy_strings(&self.redirect_uris),
            allowed_scopes: copy_strings(&self.allowed_scopes),
        }
    }

    pub fn id(&self) -> (id: u128)
        ensures
            id == self@.id,
    {
        self.id
    }

    pub fn client_name(&self) -> (name: &str)
        ensures
            name@ == self@.client_name,
    {
        self.client_name.as_str()
    }

    /// Whether `redirect_uri` is one of the client's registered redirect URIs, compared exactly.
    pub fn has_redirect_uri(&self, redirect_uri: &str) -> (r: bool)
        ensures
            r == self@.redirect_uris.contains(redirect_uri@),
    {
        contains_str(&self.redirect_uris, redirect_uri)
    }

    /// Whether every scope in `scopes` is allowed for the client.
    pub fn has_scopes(&self, scopes: &Vec<String>) -> (r: bool)
        ensures
            r == allows_scopes(self@, string_views(scopes@)),
    {
        let mut i: usize = 0;
        while i < scopes.len()
            invariant
                i <= scopes.len(),
                allows_scopes(self@, string_views(scopes@).take(i as int)),
            decreases scopes.len() - i,
        {
            if !contains_str(&self.allowed_scopes, scopes[i].as_str()) {
                proof {
                    assert(string_views(scopes@)[i as int] == scopes@[i as int]@);
                }
                return false;
            }
            proof {
                assert forall|k: int| 0 <= k < i + 1 implies self@.allowed_scopes.contains(
                    #[trigger] string_views(scopes@).take(i + 1)[k],
                ) by {
                    if k < i {
                        assert(string_views(scopes@).take(i + 1)[k] == string_views(scopes@).take(
                            i as int,
                        )[k]);
                    }
                }
            }
            i = i + 1;
        }
        proof {
            assert(string_views(scopes@).take(scopes@.len() as int) =~= string_views(scopes@));
        }
        true
    }

    /// Whether every whitespace-separated scope in `scopes` is allowed for the client.
    pub fn has_scope(&self, scopes: &str) -> (r: bool)
        ensures
            r == allows_scopes(self@, whitespace_tokens(scopes@)),
    {
        let requested = split_whitespace(scopes);
        self.has_scopes(&requested)
    }
}

} // verus!
