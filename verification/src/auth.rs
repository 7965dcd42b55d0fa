//! Interactive authentication: the proof of identity that the server asks
//! for before a privileged request such as deleting a device.
use vstd::prelude::*;

verus! {

/// What the user supplies for an interactive authentication.
#[derive(Clone, Debug, PartialEq, Eq)]
pub struct InteractiveAuthInfo {
    /// The name of the user.
    pub user: String,
    /// The password of the user.
    pub password: String,
    /// The session of an authentication that is under way, if there is one.
    pub session: Option<String>,
}

/// A value among the parameters of an authentication request.
#[derive(Clone, Debug, PartialEq, Eq)]
pub enum AuthValue {
    /// A text.
    Text(String),
    /// An object whose members are texts, as pairs of name and value.
    Object(Vec<(String, String)>),
}

/// The mathematical value of an [`AuthValue`].
pub ghost enum AuthValueView {
    Text(Seq<char>),
    Object(Seq<(Seq<char>, Seq<char>)>),
}

/// The values of the members of an object, in order.
pub open spec fn members_view(members: Seq<(String, String)>) -> Seq<(Seq<char>, Seq<char>)> {
    Seq::new(members.len(), |i: int| (members[i].0@, members[i].1@))
}

impl View for AuthValue {
    type V = AuthValueView;

    open spec fn view(&self) -> AuthValueView {
        match self {
            AuthValue::Text(text) => AuthValueView::Text(text@),
            AuthValue::Object(members) => AuthValueView::Object(members_view(members@)),
        }
    }
}

/// The authentication data of a request: the kind of authentication, its
/// parameters by name, and the session it continues.
///
/// The parameters stand for a map that is ordered by name: the names ascend,
/// so no name occurs twice.
#[derive(Clone, Debug, PartialEq, Eq)]
pub struct AuthData {
    pub kind: String,
    pub auth_parameters: Vec<(String, AuthValue)>,
    pub session: Option<String>,
}

/// The mathematical value of an [`AuthData`].
pub ghost struct AuthDataView {
    pub kind: Seq<char>,
    pub auth_parameters: Seq<(Seq<char>, AuthValueView)>,
    pub session: Option<Seq<char>>,
}

/// The values of the parameters, in order.
pub open spec fn parameters_view(parameters: Seq<(String, AuthValue)>) -> Seq<
    (Seq<char>, AuthValueView),
> {
    Seq::new(parameters.len(), |i: int| (parameters[i].0@, parameters[i].1@))
}

/// The value of a session that may be absent.
pub open spec fn session_view(session: Option<String>) -> Option<Seq<char>> {
    match session {
        Some(s) => Some(s@),
        None => None,
    }
}

impl View for AuthData {
    type V = AuthDataView;

    open spec fn view(&self) -> AuthDataView {
        AuthDataView {
            kind: self.kind@,
            auth_parameters: parameters_view(self.auth_parameters@),
            session: session_view(self.session),
        }
    }
}

/// Whether text `a` comes before text `b` in the order of their characters'
/// code points, a beginning of a text before the text itself.
pub open spec fn text_before(a: Seq<char>, b: Seq<char>) -> bool
    decreases a.len(),
{
    if b.len() == 0 {
        false
    } else if a.len() == 0 {
        true
    } else if a[0] != b[0] {
        (a[0] as u32) < (b[0] as u32)
    } else {
        text_before(a.drop_first(), b.drop_first())
    }
}

impl AuthDataView {
    /// The parameter names ascend.
    pub open spec fn names_ascending(self) -> bool {
        forall|i: int, j: int|
            0 <= i < j < self.auth_parameters.len() ==> text_before(
                self.auth_parameters[i].0,
                self.auth_parameters[j].0,
            )
    }

    /// No parameter name occurs twice.
    pub open spec fn names_distinct(self) -> bool {
        forall|i: int, j: int|
            0 <= i < j < self.auth_parameters.len() ==> self.auth_parameters[i].0
                != self.auth_parameters[j].0
    }
}

/// The password authentication of a user.
///
/// The user is named twice: inside the `identifier` object, as the protocol
/// asks, and as the bare parameter `user`, which some servers still expect.
pub open spec fn password_auth(
    user: Seq<char>,
    password: Seq<char>,
    session: Option<Seq<char>>,
) -> AuthDataView {
    AuthDataView {
        kind: "m.login.password"@,
        auth_parameters: seq![
            (
                "identifier"@,
                AuthValueView::Object(seq![("type"@, "m.id.user"@), ("user"@, user)]),
            ),
            ("password"@, AuthValueView::Text(password)),
            ("user"@, AuthValueView::Text(user)),
        ],
        session,
    }
}

/// The parameter names of a password authentication ascend, and so differ
/// from one another.
pub proof fn password_auth_names_ascending(
    user: Seq<char>,
    password: Seq<char>,
    session: Option<Seq<char>>,
)
    ensures
        password_auth(user, password, session).names_ascending(),
        password_auth(user, password, session).names_distinct(),
{
    reveal_strlit("identifier");
    reveal_strlit("password");
    reveal_strlit("user");
    assert("identifier"@.len() == 10 && "identifier"@[0] == 'i');
    assert("password"@.len() == 8 && "password"@[0] == 'p');
    assert("user"@.len() == 4 && "user"@[0] == 'u');
    assert(text_before("identifier"@, "password"@));
    assert(text_before("password"@, "user"@));
    assert(text_before("identifier"@, "user"@));
}

impl InteractiveAuthInfo {
    /// The authentication data that proves the user's identity by password.
    pub fn as_auth_data(&self) -> (data: AuthData)
        ensures
            data@ == password_auth(self.user@, self.password@, session_view(self.session)),
            data@.names_ascending(),
            data@.names_distinct(),
    {
        let mut identifier: Vec<(String, String)> = Vec::new();
        identifier.push(("type".to_owned(), "m.id.user".to_owned()));
        identifier.push(("user".to_owned(), self.user.clone()));
        let mut auth_parameters: Vec<(String, AuthValue)> = Vec::new();
        auth_parameters.push(("identifier".to_owned(), AuthValue::Object(identifier)));
        auth_parameters.push(("password".to_owned(), AuthValue::Text(self.password.clone())));
        auth_parameters.push(("user".to_owned(), AuthValue::Text(self.user.clone())));
        let session = match &self.session {
            Some(s) => Some(s.clone()),
            None => None,
        };
        let data = AuthData { kind: "m.login.password".to_owned(), auth_parameters, session };
        proof {
            let wanted = password_auth(self.user@, self.password@, session_view(self.session));
            assert(members_view(identifier@) =~= seq![("type"@, "m.id.user"@), ("user"@, self.user@)]);
            assert(data@.auth_parameters =~= wanted.auth_parameters);
            password_auth_names_ascending(self.user@, self.password@, session_view(self.session));
        }
        data
    }
}

} // verus!
