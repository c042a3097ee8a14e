//! Login, users, groups, tokens and access-control lists.

use crate::params::{opt_decimal_u64, opt_flag, put_flag, put_opt, PveParams};
use crate::text::{opt_str, opt_view};
use vstd::prelude::*;

verus! {

/// What a successful login returns.
#[derive(Debug, Clone)]
pub struct TicketInfo {
    pub username: String,
    pub ticket: String,
    pub csrf_prevention_token: String,
    pub clustername: Option<String>,
}

/// The login exchange: a user name and password for a session ticket.
#[derive(Debug, Clone)]
pub struct TicketRequest {
    pub username: String,
    pub password: String,
    pub otp: Option<String>,
    pub realm: Option<String>,
    pub tfa_challenge: Option<String>,
}

impl TicketRequest {
    /// A value with `username` and `password` given and everything else left out.
    pub fn new(username: &str, password: &str) -> (r: Self)
        ensures
            r.username@ == username@,
            r.password@ == password@,
            r.otp is None,
            r.realm is None,
            r.tfa_challenge is None,
    {
        TicketRequest {
            username: String::from_str(username),
            password: String::from_str(password),
            otp: None,
            realm: None,
            tfa_challenge: None,
        }
    }

    /// A value with every field given.
    pub fn all(
        username: &str,
        password: &str,
        otp: Option<String>,
        realm: Option<String>,
        tfa_challenge: Option<String>,
    ) -> (r: Self)
        ensures
            r.username@ == username@,
            r.password@ == password@,
            r.otp == otp,
            r.realm == realm,
            r.tfa_challenge == tfa_challenge,
    {
        TicketRequest {
            username: String::from_str(username),
            password: String::from_str(password),
            otp,
            realm,
            tfa_challenge,
        }
    }

    /// This value with `otp` set.
    pub fn otp(self, otp: &str) -> (r: Self)
        ensures
            opt_view(r.otp) == Some(otp@),
            r == (TicketRequest { otp: r.otp, ..self }),
    {
        TicketRequest { otp: Some(String::from_str(otp)), ..self }
    }

    /// This value with `realm` set.
    pub fn realm(self, realm: &str) -> (r: Self)
        ensures
            opt_view(r.realm) == Some(realm@),
            r == (TicketRequest { realm: r.realm, ..self }),
    {
        TicketRequest { realm: Some(String::from_str(realm)), ..self }
    }

    /// This value with `tfa_challenge` set.
    pub fn tfa_challenge(self, tfa_challenge: &str) -> (r: Self)
        ensures
            opt_view(r.tfa_challenge) == Some(tfa_challenge@),
            r == (TicketRequest { tfa_challenge: r.tfa_challenge, ..self }),
    {
        TicketRequest { tfa_challenge: Some(String::from_str(tfa_challenge)), ..self }
    }

    /// The parameters that this value puts on the wire: one entry for
    /// each field that is set.
    pub open spec fn params(&self) -> Map<Seq<char>, Seq<char>> {
        let m = Map::<Seq<char>, Seq<char>>::empty();
        let m = m.insert("username"@, self.username@);
        let m = m.insert("password"@, self.password@);
        let m = put_opt(m, "otp"@, opt_view(self.otp));
        let m = put_opt(m, "realm"@, opt_view(self.realm));
        put_opt(m, "tfa-challenge"@, opt_view(self.tfa_challenge))
    }

    /// Writes the fields that are set into a parameter map.
    pub fn to_params(&self) -> (r: PveParams)
        ensures
            r@ == self.params(),
    {
        let mut params = PveParams::new();
        params.insert("username", self.username.as_str());
        params.insert("password", self.password.as_str());
        params.insert_opt("otp", opt_str(&self.otp));
        params.insert_opt("realm", opt_str(&self.realm));
        params.insert_opt("tfa-challenge", opt_str(&self.tfa_challenge));
        params
    }
}

/// Which access-control entries to list.
#[derive(Debug, Clone)]
pub struct AccessAclQuery {
    pub path: Option<String>,
    pub exact: Option<bool>,
}

impl AccessAclQuery {
    /// The parameters that this value puts on the wire: one entry for
    /// each field that is set.
    pub open spec fn params(&self) -> Map<Seq<char>, Seq<char>> {
        let m = Map::<Seq<char>, Seq<char>>::empty();
        let m = put_opt(m, "path"@, opt_view(self.path));
        put_opt(m, "exact"@, opt_flag(self.exact))
    }

    /// Writes the fields that are set into a parameter map.
    pub fn to_params(&self) -> (r: PveParams)
        ensures
            r@ == self.params(),
    {
        let mut params = PveParams::new();
        params.insert_opt("path", opt_str(&self.path));
        params.insert_opt_bool("exact", self.exact);
        params
    }
}

impl Default for AccessAclQuery {
    fn default() -> (r: Self)
        ensures
            r.path is None,
            r.exact is None,
    {
        AccessAclQuery {
            path: None,
            exact: None,
        }
    }
}

/// A new API token for a user.
#[derive(Debug, Clone)]
pub struct AccessCreateTokenRequest {
    pub tokenid: String,
    pub comment: Option<String>,
    pub expire: Option<u64>,
    pub privsep: Option<bool>,
}

impl AccessCreateTokenRequest {
    /// A value with `tokenid` given and everything else left out.
    pub fn new(tokenid: &str) -> (r: Self)
        ensures
            r.tokenid@ == tokenid@,
            r.comment is None,
            r.expire is None,
            r.privsep is None,
    {
        AccessCreateTokenRequest {
            tokenid: String::from_str(tokenid),
            comment: None,
            expire: None,
            privsep: None,
        }
    }

    /// The parameters that this value puts on the wire: one entry for
    /// each field that is set.
    pub open spec fn params(&self) -> Map<Seq<char>, Seq<char>> {
        let m = Map::<Seq<char>, Seq<char>>::empty();
        let m = m.insert("tokenid"@, self.tokenid@);
        let m = put_opt(m, "comment"@, opt_view(self.comment));
        let m = put_opt(m, "expire"@, opt_decimal_u64(self.expire));
        put_opt(m, "privsep"@, opt_flag(self.privsep))
    }

    /// Writes the fields that are set into a parameter map.
    pub fn to_params(&self) -> (r: PveParams)
        ensures
            r@ == self.params(),
    {
        let mut params = PveParams::new();
        params.insert("tokenid", self.tokenid.as_str());
        params.insert_opt("comment", opt_str(&self.comment));
        params.insert_opt_u64("expire", self.expire);
        params.insert_opt_bool("privsep", self.privsep);
        params
    }
}

/// Changes to an API token.
#[derive(Debug, Clone)]
pub struct AccessUpdateTokenRequest {
    pub comment: Option<String>,
    pub enable: Option<bool>,
    pub expire: Option<u64>,
}

impl AccessUpdateTokenRequest {
    /// The parameters that this value puts on the wire: one entry for
    /// each field that is set.
    pub open spec fn params(&self) -> Map<Seq<char>, Seq<char>> {
        let m = Map::<Seq<char>, Seq<char>>::empty();
        let m = put_opt(m, "comment"@, opt_view(self.comment));
        let m = put_opt(m, "enable"@, opt_flag(self.enable));
        put_opt(m, "expire"@, opt_decimal_u64(self.expire))
    }

    /// Writes the fields that are set into a parameter map.
    pub fn to_params(&self) -> (r: PveParams)
        ensures
            r@ == self.params(),
    {
        let mut params = PveParams::new();
        params.insert_opt("comment", opt_str(&self.comment));
        params.insert_opt_bool("enable", self.enable);
        params.insert_opt_u64("expire", self.expire);
        params
    }
}

impl Default for AccessUpdateTokenRequest {
    fn default() -> (r: Self)
        ensures
            r.comment is None,
            r.enable is None,
            r.expire is None,
    {
        AccessUpdateTokenRequest {
            comment: None,
            enable: None,
            expire: None,
        }
    }
}

/// A new user.
#[derive(Debug, Clone)]
pub struct AccessCreateUserRequest {
    pub userid: String,
    pub password: Option<String>,
    pub comment: Option<String>,
    pub email: Option<String>,
    pub enable: Option<bool>,
    pub expire: Option<u64>,
    pub firstname: Option<String>,
    pub lastname: Option<String>,
    pub groups: Option<String>,
    pub keys: Option<String>,
}

impl AccessCreateUserRequest {
    /// A value with `userid` given and everything else left out.
    pub fn new(userid: &str) -> (r: Self)
        ensures
            r.userid@ == userid@,
            r.password is None,
            r.comment is None,
            r.email is None,
            r.enable is None,
            r.expire is None,
            r.firstname is None,
            r.lastname is None,
            r.groups is None,
            r.keys is None,
    {
        AccessCreateUserRequest {
            userid: String::from_str(userid),
            password: None,
            comment: None,
            email: None,
            enable: None,
            expire: None,
            firstname: None,
            lastname: None,
            groups: None,
            keys: None,
        }
    }

    /// The parameters that this value puts on the wire: one entry for
    /// each field that is set.
    pub open spec fn params(&self) -> Map<Seq<char>, Seq<char>> {
        let m = Map::<Seq<char>, Seq<char>>::empty();
        let m = m.insert("userid"@, self.userid@);
        let m = put_opt(m, "password"@, opt_view(self.password));
        let m = put_opt(m, "comment"@, opt_view(self.comment));
        let m = put_opt(m, "email"@, opt_view(self.email));
        let m = put_opt(m, "enable"@, opt_flag(self.enable));
        let m = put_opt(m, "expire"@, opt_decimal_u64(self.expire));
        let m = put_opt(m, "firstname"@, opt_view(self.firstname));
        let m = put_opt(m, "lastname"@, opt_view(self.lastname));
        let m = put_opt(m, "groups"@, opt_view(self.groups));
        put_opt(m, "keys"@, opt_view(self.keys))
    }

    /// Writes the fields that are set into a parameter map.
    pub fn to_params(&self) -> (r: PveParams)
        ensures
            r@ == self.params(),
    {
        let mut params = PveParams::new();
        params.insert("userid", self.userid.as_str());
        params.insert_opt("password", opt_str(&self.password));
        params.insert_opt("comment", opt_str(&self.comment));
        params.insert_opt("email", opt_str(&self.email));
        params.insert_opt_bool("enable", self.enable);
        params.insert_opt_u64("expire", self.expire);
        params.insert_opt("firstname", opt_str(&self.firstname));
        params.insert_opt("lastname", opt_str(&self.lastname));
        params.insert_opt("groups", opt_str(&self.groups));
        params.insert_opt("keys", opt_str(&self.keys));
        params
    }
}

/// Changes to a user.
#[derive(Debug, Clone)]
pub struct AccessUpdateUserRequest {
    pub comment: Option<String>,
    pub email: Option<String>,
    pub enable: Option<bool>,
    pub expire: Option<u64>,
    pub firstname: Option<String>,
    pub lastname: Option<String>,
    pub groups: Option<String>,
    pub keys: Option<String>,
    pub password: Option<String>,
}

impl AccessUpdateUserRequest {
    /// The parameters that this value puts on the wire: one entry for
    /// each field that is set.
    pub open spec fn params(&self) -> Map<Seq<char>, Seq<char>> {
        let m = Map::<Seq<char>, Seq<char>>::empty();
        let m = put_opt(m, "comment"@, opt_view(self.comment));
        let m = put_opt(m, "email"@, opt_view(self.email));
        let m = put_opt(m, "enable"@, opt_flag(self.enable));
        let m = put_opt(m, "expire"@, opt_decimal_u64(self.expire));
        let m = put_opt(m, "firstname"@, opt_view(self.firstname));
        let m = put_opt(m, "lastname"@, opt_view(self.lastname));
        let m = put_opt(m, "groups"@, opt_view(self.groups));
        let m = put_opt(m, "keys"@, opt_view(self.keys));
        put_opt(m, "password"@, opt_view(self.password))
    }

    /// Writes the fields that are set into a parameter map.
    pub fn to_params(&self) -> (r: PveParams)
        ensures
            r@ == self.params(),
    {
        let mut params = PveParams::new();
        params.insert_opt("comment", opt_str(&self.comment));
        params.insert_opt("email", opt_str(&self.email));
        params.insert_opt_bool("enable", self.enable);
        params.insert_opt_u64("expire", self.expire);
        params.insert_opt("firstname", opt_str(&self.firstname));
        params.insert_opt("lastname", opt_str(&self.lastname));
        params.insert_opt("groups", opt_str(&self.groups));
        params.insert_opt("keys", opt_str(&self.keys));
        params.insert_opt("password", opt_str(&self.password));
        params
    }
}

impl Default for AccessUpdateUserRequest {
    fn default() -> (r: Self)
        ensures
            r.comment is None,
            r.email is None,
            r.enable is None,
            r.expire is None,
            r.firstname is None,
            r.lastname is None,
            r.groups is None,
            r.keys is None,
            r.password is None,
    {
        AccessUpdateUserRequest {
            comment: None,
            email: None,
            enable: None,
            expire: None,
            firstname: None,
            lastname: None,
            groups: None,
            keys: None,
            password: None,
        }
    }
}

/// A new group.
#[derive(Debug, Clone)]
pub struct AccessCreateGroupRequest {
    pub groupid: String,
    pub comment: Option<String>,
}

impl AccessCreateGroupRequest {
    /// A value with `groupid` given and everything else left out.
    pub fn new(groupid: &str) -> (r: Self)
        ensures
            r.groupid@ == groupid@,
            r.comment is None,
    {
        AccessCreateGroupRequest {
            groupid: String::from_str(groupid),
            comment: None,
        }
    }

    /// The parameters that this value puts on the wire: one entry for
    /// each field that is set.
    pub open spec fn params(&self) -> Map<Seq<char>, Seq<char>> {
        let m = Map::<Seq<char>, Seq<char>>::empty();
        let m = m.insert("groupid"@, self.groupid@);
        put_opt(m, "comment"@, opt_view(self.comment))
    }

    /// Writes the fields that are set into a parameter map.
    pub fn to_params(&self) -> (r: PveParams)
        ensures
            r@ == self.params(),
    {
        let mut params = PveParams::new();
        params.insert("groupid", self.groupid.as_str());
        params.insert_opt("comment", opt_str(&self.comment));
        params
    }
}

/// Changes to a group.
#[derive(Debug, Clone)]
pub struct AccessUpdateGroupRequest {
    pub comment: Option<String>,
}

impl AccessUpdateGroupRequest {
    /// The parameters that this value puts on the wire: one entry for
    /// each field that is set.
    pub open spec fn params(&self) -> Map<Seq<char>, Seq<char>> {
        let m = Map::<Seq<char>, Seq<char>>::empty();
        put_opt(m, "comment"@, opt_view(self.comment))
    }

    /// Writes the fields that are set into a parameter map.
    pub fn to_params(&self) -> (r: PveParams)
        ensures
            r@ == self.params(),
    {
        let mut params = PveParams::new();
        params.insert_opt("comment", opt_str(&self.comment));
        params
    }
}

impl Default for AccessUpdateGroupRequest {
    fn default() -> (r: Self)
        ensures
            r.comment is None,
    {
        AccessUpdateGroupRequest {
            comment: None,
        }
    }
}

/// Grants roles at a path to users, groups or tokens.
#[derive(Debug, Clone)]
pub struct AccessSetAclRequest {
    pub path: String,
    pub roles: String,
    pub users: Option<String>,
    pub groups: Option<String>,
    pub tokens: Option<String>,
    pub propagate: Option<bool>,
}

impl AccessSetAclRequest {
    /// A value with `path` and `roles` given and everything else left out.
    pub fn new(path: &str, roles: &str) -> (r: Self)
        ensures
            r.path@ == path@,
            r.roles@ == roles@,
            r.users is None,
            r.groups is None,
            r.tokens is None,
            r.propagate is None,
    {
        AccessSetAclRequest {
            path: String::from_str(path),
            roles: String::from_str(roles),
            users: None,
            groups: None,
            tokens: None,
            propagate: None,
        }
    }

    /// The parameters that this value puts on the wire: one entry for
    /// each field that is set.
    pub open spec fn params(&self) -> Map<Seq<char>, Seq<char>> {
        let m = Map::<Seq<char>, Seq<char>>::empty();
        let m = m.insert("path"@, self.path@);
        let m = m.insert("roles"@, self.roles@);
        let m = put_opt(m, "users"@, opt_view(self.users));
        let m = put_opt(m, "groups"@, opt_view(self.groups));
        let m = put_opt(m, "tokens"@, opt_view(self.tokens));
        put_opt(m, "propagate"@, opt_flag(self.propagate))
    }

    /// Writes the fields that are set into a parameter map.
    pub fn to_params(&self) -> (r: PveParams)
        ensures
            r@ == self.params(),
    {
        let mut params = PveParams::new();
        params.insert("path", self.path.as_str());
        params.insert("roles", self.roles.as_str());
        params.insert_opt("users", opt_str(&self.users));
        params.insert_opt("groups", opt_str(&self.groups));
        params.insert_opt("tokens", opt_str(&self.tokens));
        params.insert_opt_bool("propagate", self.propagate);
        params
    }
}

/// Revokes access-control entries at a path.
#[derive(Debug, Clone)]
pub struct AccessDeleteAclRequest {
    pub path: String,
    pub roles: Option<String>,
    pub users: Option<String>,
    pub groups: Option<String>,
    pub tokens: Option<String>,
}

impl AccessDeleteAclRequest {
    /// A value with `path` given and everything else left out.
    pub fn new(path: &str) -> (r: Self)
        ensures
            r.path@ == path@,
            r.roles is None,
            r.users is None,
            r.groups is None,
            r.tokens is None,
    {
        AccessDeleteAclRequest {
            path: String::from_str(path),
            roles: None,
            users: None,
            groups: None,
            tokens: None,
        }
    }

    /// The parameters that this value puts on the wire: one entry for
    /// each field that is set.
    pub open spec fn params(&self) -> Map<Seq<char>, Seq<char>> {
        let m = Map::<Seq<char>, Seq<char>>::empty();
        let m = m.insert("path"@, self.path@);
        let m = put_opt(m, "roles"@, opt_view(self.roles));
        let m = put_opt(m, "users"@, opt_view(self.users));
        let m = put_opt(m, "groups"@, opt_view(self.groups));
        let m = put_opt(m, "tokens"@, opt_view(self.tokens));
        put_flag(m, "delete"@, true)
    }

    /// Writes the fields that are set into a parameter map.
    pub fn to_params(&self) -> (r: PveParams)
        ensures
            r@ == self.params(),
    {
        let mut params = PveParams::new();
        params.insert("path", self.path.as_str());
        params.insert_opt("roles", opt_str(&self.roles));
        params.insert_opt("users", opt_str(&self.users));
        params.insert_opt("groups", opt_str(&self.groups));
        params.insert_opt("tokens", opt_str(&self.tokens));
        params.insert_bool("delete", true);
        params
    }
}

} // verus!
