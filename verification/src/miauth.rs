//! The token-issuance handshake: an application asks for permissions, the
//! user approves out of band, and the application polls for the token.

use crate::text::{join, join_strings, texts};
use crate::traits::{opt_string_text, MisskeyClientRequest};
use crate::unique::{no_duplicates, with_item, with_items};
use crate::{ClientModel, MisskeyHttpClient};
use vstd::prelude::*;
use vstd::string::*;

pub mod permission;

pub use permission::Permission;

verus! {

pub open spec fn is_hex_digit(c: char) -> bool {
    ('0' <= c && c <= '9') || ('a' <= c && c <= 'f')
}

/// The form of a session identifier: thirty-six characters, hyphens at the
/// places 8, 13, 18 and 23, lower-case hexadecimal digits elsewhere.
pub open spec fn is_session_id(s: Seq<char>) -> bool {
    s.len() == 36 && forall|i: int|
        0 <= i < 36 ==> if i == 8 || i == 13 || i == 18 || i == 23 {
            #[trigger] s[i] == '-'
        } else {
            is_hex_digit(s[i])
        }
}

/// Draws a fresh random identifier with `uuid::Uuid::new_v4` and writes it
/// with the crate's `Display`, which is the hyphenated lower-case form. Which
/// identifier comes out is left open. The call panics where the system hands
/// out no random bytes, as an allocation does where it hands out no memory.
#[verifier::external_body]
fn fresh_session_id() -> (res: String)
    ensures
        is_session_id(res@),
{
    uuid::Uuid::new_v4().to_string()
}

/// The names of the scopes, in order.
pub open spec fn scope_names(permission: Seq<Permission>) -> Seq<Seq<char>> {
    Seq::new(permission.len(), |i: int| permission[i].text())
}

/// The query parameter of an optional setting: `key` and the value where
/// the setting was made, nothing where it was not.
pub open spec fn opt_param(key: Seq<char>, value: Option<Seq<char>>) -> Seq<Seq<char>> {
    match value {
        Some(v) => seq![key + v],
        None => Seq::empty(),
    }
}

/// The query parameter of the scopes: their names between commas, nothing
/// where no scope was asked for.
pub open spec fn permission_param(permission: Seq<Permission>) -> Seq<Seq<char>> {
    if permission.len() == 0 {
        Seq::empty()
    } else {
        seq!["permission="@ + join(scope_names(permission), ","@)]
    }
}

/// The address that the user has to visit: the authority, the path of the
/// session, and the query parameters, if there are any, after a question
/// mark and between ampersands.
pub open spec fn auth_uri(authority: Seq<char>, session: Seq<char>, params: Seq<Seq<char>>) -> Seq<
    char,
> {
    authority + "/miauth/"@ + session + if params.len() == 0 {
        Seq::empty()
    } else {
        "?"@ + join(params, "&"@)
    }
}

/// What a builder holds, apart from how it is stored.
pub struct BuilderModel<T> {
    /// The client that opens the session.
    pub client: ClientModel<T>,
    /// The address that travels as the parameter `uri`.
    pub uri: Option<Seq<char>>,
    /// The name under which the application shows.
    pub name: Option<Seq<char>>,
    /// The address of the application's icon.
    pub icon: Option<Seq<char>>,
    /// The address to which the user is sent back after the approval; it
    /// travels as the parameter `callback`.
    pub callback: Option<Seq<char>>,
    /// The scopes asked for, each once, in the order of first asking.
    pub permission: Seq<Permission>,
}

impl<T> BuilderModel<T> {
    /// The query parameters in the order in which they are written.
    pub open spec fn params(self) -> Seq<Seq<char>> {
        permission_param(self.permission) + opt_param("callback="@, self.callback) + opt_param(
            "icon="@,
            self.icon,
        ) + opt_param("name="@, self.name) + opt_param("uri="@, self.uri)
    }
}

/// Collects what an application shows of itself and what it asks for.
pub struct MiAuthBuilder<T> {
    client: MisskeyHttpClient<T>,
    uri: Option<String>,
    name: Option<String>,
    icon: Option<String>,
    callback: Option<String>,
    permission: Vec<Permission>,
}

impl<T> View for MiAuthBuilder<T> {
    type V = BuilderModel<T>;

    closed spec fn view(&self) -> BuilderModel<T> {
        BuilderModel {
            client: self.client@,
            uri: opt_string_text(self.uri),
            name: opt_string_text(self.name),
            icon: opt_string_text(self.icon),
            callback: opt_string_text(self.callback),
            permission: self.permission@,
        }
    }
}

impl<T> MiAuthBuilder<T> {
    #[verifier::type_invariant]
    spec fn scopes_are_a_set(&self) -> bool {
        no_duplicates(self.permission@)
    }

    /// A builder for a new session of `client`, with nothing set and nothing
    /// asked for.
    pub fn new(client: MisskeyHttpClient<T>) -> (res: Self)
        ensures
            res@ == (BuilderModel {
                client: client@,
                uri: None,
                name: None,
                icon: None,
                callback: None,
                permission: Seq::empty(),
            }),
    {
        MiAuthBuilder {
            client,
            uri: None,
            name: None,
            icon: None,
            callback: None,
            permission: Vec::new(),
        }
    }

    /// Sets the name under which the application shows.
    pub fn set_app_name(self, name: String) -> (res: Self)
        ensures
            res@ == (BuilderModel { name: Some(name@), ..self@ }),
    {
        proof {
            use_type_invariant(&self);
        }
        let MiAuthBuilder { client, uri, name: _, icon, callback, permission } = self;
        MiAuthBuilder { client, uri, name: Some(name), icon, callback, permission }
    }

    /// Sets the address of the application's icon.
    pub fn set_app_icon(self, icon: &str) -> (res: Self)
        ensures
            res@ == (BuilderModel { icon: Some(icon@), ..self@ }),
    {
        proof {
            use_type_invariant(&self);
        }
        let MiAuthBuilder { client, uri, name, icon: _, callback, permission } = self;
        MiAuthBuilder { client, uri, name, icon: Some(icon.to_owned()), callback, permission }
    }

    /// Sets the address to which the user is sent back after the approval.
    /// It travels as the parameter `callback`.
    pub fn set_callback_uri(self, uri: &str) -> (res: Self)
        ensures
            res@ == (BuilderModel { callback: Some(uri@), ..self@ }),
    {
        proof {
            use_type_invariant(&self);
        }
        let MiAuthBuilder { client, uri: address, name, icon, callback: _, permission } = self;
        MiAuthBuilder {
            client,
            uri: address,
            name,
            icon,
            callback: Some(uri.to_owned()),
            permission,
        }
    }

    /// Sets the address that travels as the parameter `uri`.
    pub fn set_uri(self, uri: &str) -> (res: Self)
        ensures
            res@ == (BuilderModel { uri: Some(uri@), ..self@ }),
    {
        proof {
            use_type_invariant(&self);
        }
        let MiAuthBuilder { client, uri: _, name, icon, callback, permission } = self;
        MiAuthBuilder { client, uri: Some(uri.to_owned()), name, icon, callback, permission }
    }

    /// Asks for one scope. Asking twice is asking once.
    pub fn require(self, permission: Permission) -> (res: Self)
        ensures
            res@ == (BuilderModel {
                permission: with_item(self@.permission, permission),
                ..self@
            }),
            no_duplicates(res@.permission),
    {
        proof {
            use_type_invariant(&self);
        }
        let MiAuthBuilder { client, uri, name, icon, callback, permission: mut scopes } = self;
        let ghost before = scopes@;
        let mut i: usize = 0;
        let mut found = false;
        while i < scopes.len()
            invariant
                0 <= i <= scopes@.len(),
                scopes@ == before,
                found == exists|k: int| 0 <= k < i && before[k] == permission,
            decreases scopes@.len() - i,
        {
            if scopes[i] == permission {
                found = true;
            }
            i += 1;
        }
        if !found {
            scopes.push(permission);
            proof {
                assert(!before.contains(permission));
            }
        } else {
            proof {
                let k = choose|k: int| 0 <= k < before.len() && before[k] == permission;
                assert(before[k] == permission);
                assert(before.contains(permission));
            }
        }
        MiAuthBuilder { client, uri, name, icon, callback, permission: scopes }
    }

    /// Asks for several scopes, one after another.
    pub fn require_all(self, permissions: Vec<Permission>) -> (res: Self)
        ensures
            res@ == (BuilderModel {
                permission: with_items(self@.permission, permissions@),
                ..self@
            }),
            no_duplicates(res@.permission),
    {
        proof {
            use_type_invariant(&self);
        }
        let ghost start = self@;
        let mut builder = self;
        let mut i: usize = 0;
        while i < permissions.len()
            invariant
                0 <= i <= permissions@.len(),
                builder@ == (BuilderModel {
                    permission: with_items(start.permission, permissions@.take(i as int)),
                    ..start
                }),
                no_duplicates(builder@.permission),
            decreases permissions@.len() - i,
        {
            proof {
                assert(permissions@.take(i + 1).drop_last() =~= permissions@.take(i as int));
            }
            builder = builder.require(permissions[i]);
            i += 1;
        }
        proof {
            assert(permissions@.take(permissions@.len() as int) =~= permissions@);
        }
        builder
    }

    /// Closes the builder: the session is open under a fresh random
    /// identifier, and its address is ready to be shown to the user.
    pub fn build(self) -> (res: MiAuth<T>)
        ensures
            is_session_id(res@.session),
            res@ == (MiAuthModel {
                client: self@.client,
                uri: auth_uri(self@.client.authority, res@.session, self@.params()),
                session: res@.session,
            }),
    {
        proof {
            use_type_invariant(&self);
        }
        let ghost model = self@;
        let MiAuthBuilder { client, uri, name, icon, callback, permission } = self;
        let session = fresh_session_id();
        let mut list: Vec<String> = Vec::new();
        assert(texts(list@) =~= Seq::empty());
        if permission.len() > 0 {
            let mut names: Vec<String> = Vec::new();
            let mut i: usize = 0;
            while i < permission.len()
                invariant
                    0 <= i <= permission@.len(),
                    texts(names@) == scope_names(permission@).take(i as int),
                decreases permission@.len() - i,
            {
                let ghost before = texts(names@);
                names.push(permission[i].to_string());
                proof {
                    assert(texts(names@) =~= before.push(permission@[i as int].text()));
                    assert(texts(names@) =~= scope_names(permission@).take(i + 1));
                }
                i += 1;
            }
            proof {
                assert(scope_names(permission@).take(permission@.len() as int) =~= scope_names(
                    permission@,
                ));
            }
            let joined = join_strings(&names, ",");
            let param = "permission=".to_owned().concat(joined.as_str());
            list.push(param);
            assert(texts(list@) =~= permission_param(permission@));
        }
        push_param(&mut list, "callback=", &callback);
        push_param(&mut list, "icon=", &icon);
        push_param(&mut list, "name=", &name);
        push_param(&mut list, "uri=", &uri);
        assert(texts(list@) == model.params());
        let mut text = client.authority().as_str().to_owned();
        text.append("/miauth/");
        text.append(session.as_str());
        if list.len() > 0 {
            text.append("?");
            let query = join_strings(&list, "&");
            text.append(query.as_str());
        }
        assert(text@ =~= auth_uri(model.client.authority, session@, model.params()));
        MiAuth { client, uri: text, info: MiAuthInfo { session } }
    }
}

/// Appends the parameter of an optional setting to the list.
fn push_param(list: &mut Vec<String>, key: &str, value: &Option<String>)
    ensures
        texts(final(list)@) == texts(old(list)@) + opt_param(key@, opt_string_text(*value)),
{
    let ghost before = texts(list@);
    match value {
        Some(v) => {
            let param = key.to_owned().concat(v.as_str());
            list.push(param);
            assert(texts(list@) =~= before + seq![key@ + v@]);
        },
        None => {
            assert(texts(list@) =~= before + Seq::empty());
        },
    }
}

/// The probe that asks the server whether a session was approved.
#[derive(Debug)]
pub struct MiAuthInfo {
    session: String,
}

impl View for MiAuthInfo {
    type V = Seq<char>;

    closed spec fn view(&self) -> Seq<char> {
        self.session@
    }
}

/// The path of the probe of a session, under the API root.
pub open spec fn probe_path(session: Seq<char>) -> Seq<char> {
    "/miauth/"@ + session + "/check"@
}

impl MiAuthInfo {
    #[verifier::type_invariant]
    spec fn has_session_id(&self) -> bool {
        is_session_id(self.session@)
    }

    /// The identifier of the session.
    pub fn session_id(&self) -> (res: &str)
        ensures
            res@ == self@,
            is_session_id(self@),
    {
        proof {
            use_type_invariant(self);
        }
        self.session.as_str()
    }
}

impl MisskeyClientRequest for MiAuthInfo {
    fn endpoint(&self) -> (res: String)
        ensures
            res@ == probe_path(self@),
    {
        let mut path = "/miauth/".to_owned();
        path.append(self.session.as_str());
        path.append("/check");
        path
    }

    fn content_type(&self) -> (res: Option<String>)
        ensures
            res is None,
    {
        None
    }

    fn body(&self, token: Option<&str>) -> (res: String)
        ensures
            res@ == Seq::<char>::empty(),
    {
        String::new()
    }

    fn can_be_empty(&self) -> (res: bool)
        ensures
            !res,
    {
        false
    }
}

/// The probe of a session can always be framed: its path is a request
/// target, and it has no content type.
pub proof fn lemma_probe_can_be_framed(session: Seq<char>)
    requires
        is_session_id(session),
    ensures
        crate::connection::can_frame(vstd::utf8::encode_utf8(probe_path(session)), None),
{
    reveal_strlit("/miauth/");
    reveal_strlit("/check");
    let path = "/miauth/"@ + session + "/check"@;
    assert forall|i: int| 0 <= i < path.len() implies '!' <= #[trigger] path[i] <= '~' by {
        if i < 8 {
            assert(path[i] == "/miauth/"@[i]);
        } else if i < 44 {
            assert(path[i] == session[i - 8]);
            let k = i - 8;
            if k == 8 || k == 13 || k == 18 || k == 23 {
                assert(session[k] == '-');
            } else {
                assert(is_hex_digit(session[k]));
            }
        } else {
            assert(path[i] == "/check"@[i - 44]);
        }
    }
    assert(vstd::utf8::is_ascii_chars(path));
    vstd::utf8::is_ascii_chars_encode_utf8(path);
    let bytes = vstd::utf8::encode_utf8(path);
    assert forall|i: int| 0 <= i < bytes.len() implies crate::authority::is_visible(
        #[trigger] bytes[i],
    ) by {
        assert(bytes[i] == path[i] as u8);
        assert('!' <= path[i] <= '~');
    }
}

/// What the server answers to the probe.
#[derive(Debug)]
pub struct MiAuthServerResponse<U> {
    /// Whether the user approved.
    pub ok: bool,
    /// The access token, once approved.
    pub token: Option<String>,
    /// The profile of the user who approved.
    pub user: Option<U>,
}

/// What an open session is, apart from how it is stored.
pub struct MiAuthModel<T> {
    pub client: ClientModel<T>,
    pub uri: Seq<char>,
    pub session: Seq<char>,
}

/// An open session that waits for the user's approval.
pub struct MiAuth<T> {
    client: MisskeyHttpClient<T>,
    uri: String,
    info: MiAuthInfo,
}

impl<T> View for MiAuth<T> {
    type V = MiAuthModel<T>;

    closed spec fn view(&self) -> MiAuthModel<T> {
        MiAuthModel { client: self.client@, uri: self.uri@, session: self.info@ }
    }
}

/// Where a session stands after a probe.
pub enum MiAuthStatus<T, U> {
    /// The user has not approved yet. The session can be probed again.
    Pending(MiAuth<T>),
    /// The user approved: the client is logged in, and this is the user.
    Succeed(MisskeyHttpClient<T>, U),
}

/// The answer says that the user approved, and holds the token and the user.
pub open spec fn is_approval<U>(response: Option<MiAuthServerResponse<U>>) -> bool {
    response matches Some(r) && r.ok && r.token is Some && r.user is Some
}

impl<T> MiAuth<T> {
    /// The address that the user has to visit.
    pub fn get_uri(&self) -> (res: &String)
        ensures
            res@ == self@.uri,
    {
        &self.uri
    }

    /// The identifier of the session.
    pub fn session_id(&self) -> (res: &str)
        ensures
            res@ == self@.session,
    {
        self.info.session_id()
    }

    /// The probe to send.
    pub fn info(&self) -> (res: &MiAuthInfo)
        ensures
            res@ == self@.session,
    {
        &self.info
    }

    /// The client that sends the probe.
    pub fn client(&self) -> (res: &MisskeyHttpClient<T>)
        ensures
            res@ == self@.client,
    {
        &self.client
    }

    /// Frames the probe: a POST without body and without content type to the
    /// session's path. It can always be framed.
    pub fn gen_probe(&self) -> (res: Vec<u8>)
        ensures
            is_session_id(self@.session),
            res@ == crate::connection::post_request(
                self@.client.host(),
                vstd::utf8::encode_utf8(probe_path(self@.session)),
                None,
                Seq::empty(),
            ).wire(),
    {
        proof {
            use_type_invariant(&self.info);
            lemma_probe_can_be_framed(self.info@);
            assert(vstd::utf8::encode_utf8(Seq::<char>::empty()) =~= Seq::<u8>::empty());
        }
        match self.client.gen_request(&self.info) {
            Ok(bytes) => bytes,
            Err(_) => {
                proof {
                    assert(false);
                }
                Vec::new()
            },
        }
    }

    /// The client, for whoever performs the reads and writes.
    pub fn client_mut(&mut self) -> (res: &mut MisskeyHttpClient<T>)
        ensures
            res@ == old(self)@.client,
            final(self)@ == (MiAuthModel { client: final(res)@, ..old(self)@ }),
    {
        &mut self.client
    }

    /// Concludes a probe from the server's answer, `None` standing for an
    /// answer without content.
    ///
    /// Where the answer says that the user approved and holds both the token
    /// and the user, the session has succeeded: the client comes back logged
    /// in with the token, together with the user. Every other answer leaves
    /// the session pending and unchanged.
    pub fn check<U>(self, response: Option<MiAuthServerResponse<U>>) -> (res: MiAuthStatus<T, U>)
        ensures
            match res {
                MiAuthStatus::Succeed(client, user) => is_approval(response) && client@
                    == self@.client.login(response->0.token->0@) && user == response->0.user->0,
                MiAuthStatus::Pending(session) => !is_approval(response) && session == self,
            },
    {
        match response {
            Some(MiAuthServerResponse { ok: true, token: Some(token), user: Some(user) }) => {
                MiAuthStatus::Succeed(self.client.login(token.as_str()), user)
            },
            _ => MiAuthStatus::Pending(self),
        }
    }
}

impl<T> MisskeyHttpClient<T> {
    /// Starts the handshake for a new session of this client.
    pub fn miauth(self) -> (res: MiAuthBuilder<T>)
        ensures
            res@ == (BuilderModel {
                client: self@,
                uri: None,
                name: None,
                icon: None,
                callback: None,
                permission: Seq::empty(),
            }),
    {
        MiAuthBuilder::new(self)
    }
}

} // verus!
