use vstd::prelude::*;

use crate::bindings::{parse_peer_id, peer_id_text_bytes};
use crate::types::{clone_strings, Timestamp};

verus! {

/// The flags of a passport as sequences of characters.
pub open spec fn flags_view(flags: Option<Vec<String>>) -> Option<Seq<Seq<char>>> {
    match flags {
        Some(v) => Some(v@.map_values(|s: String| s@)),
        None => None,
    }
}

/// An account provider that issues passports: its name and the public keys
/// (each in its protobuf encoding) its passports are signed with.
pub struct Provider {
    pub provider: String,
    pub public_keys: Vec<Vec<u8>>,
}

/// The account providers whose passports this peer accepts.
pub struct ProviderList {
    list: Vec<Provider>,
}

/// A passport as issued: the signed JWT together with what it states. It
/// links a user account of a provider to a peer id: the provider, the
/// peer id's text, the username and user id, optional hashed flags, and
/// the second at which the passport expires.
#[derive(Debug, PartialEq, Eq)]
pub struct Passport {
    jwt: String,
    provider: String,
    peer_id: String,
    username: String,
    user_id: i64,
    flags: Option<Vec<String>>,
    expirey: i64,
}

/// The mathematical value of a [`Passport`].
pub struct PassportView {
    pub jwt: Seq<char>,
    pub provider: Seq<char>,
    pub peer_id: Seq<char>,
    pub username: Seq<char>,
    pub user_id: i64,
    pub flags: Option<Seq<Seq<char>>>,
    pub expirey: i64,
}

impl View for Passport {
    type V = PassportView;

    closed spec fn view(&self) -> PassportView {
        PassportView {
            jwt: self.jwt@,
            provider: self.provider@,
            peer_id: self.peer_id@,
            username: self.username@,
            user_id: self.user_id,
            flags: flags_view(self.flags),
            expirey: self.expirey,
        }
    }
}

impl Clone for Passport {
    fn clone(&self) -> (r: Self)
        ensures
            r@ == self@,
    {
        let flags = match &self.flags {
            Some(v) => Some(clone_strings(v)),
            None => None,
        };
        Passport {
            jwt: self.jwt.clone(),
            provider: self.provider.clone(),
            peer_id: self.peer_id.clone(),
            username: self.username.clone(),
            user_id: self.user_id,
            flags,
            expirey: self.expirey,
        }
    }
}

impl Passport {
    /// Assembles a passport from its fields.
    pub fn new(
        jwt: String,
        provider: String,
        peer_id: String,
        username: String,
        user_id: i64,
        flags: Option<Vec<String>>,
        expirey: i64,
    ) -> (r: Self)
        ensures
            r@ == (PassportView {
                jwt: jwt@,
                provider: provider@,
                peer_id: peer_id@,
                username: username@,
                user_id,
                flags: flags_view(flags),
                expirey,
            }),
    {
        Passport { jwt, provider, peer_id, username, user_id, flags, expirey }
    }

    /// The JWT this passport was read from.
    pub fn to_jwt(&self) -> (r: &str)
        ensures
            r@ == self@.jwt,
    {
        self.jwt.as_str()
    }

    pub fn provider(&self) -> (r: &String)
        ensures
            r@ == self@.provider,
    {
        return &self.provider;
    }

    pub fn username(&self) -> (r: &String)
        ensures
            r@ == self@.username,
    {
        return &self.username;
    }

    pub fn peer_id_str(&self) -> (r: String)
        ensures
            r@ == self@.peer_id,
    {
        return self.peer_id.clone();
    }

    /// The bytes of the peer id this passport was issued to. Its text must
    /// parse as a peer id.
    pub fn peer_id(&self) -> (r: Vec<u8>)
        requires
            peer_id_text_bytes(self@.peer_id) is Some,
        ensures
            peer_id_text_bytes(self@.peer_id) == Some(r@),
    {
        parse_peer_id(self.peer_id.as_str()).expect("Something went wrong")
    }

    /// The bytes of the peer id this passport was issued to, or `None` where
    /// its text does not parse. It tests the text before it asks
    /// [`Passport::peer_id`], which needs text that parses.
    pub fn try_peer_id(&self) -> (r: Option<Vec<u8>>)
        ensures
            r matches Some(id) ==> peer_id_text_bytes(self@.peer_id) == Some(id@),
            r is None ==> peer_id_text_bytes(self@.peer_id) is None,
    {
        match parse_peer_id(self.peer_id.as_str()) {
            Some(_) => Some(self.peer_id()),
            None => None,
        }
    }

    pub fn user_id(&self) -> (r: i64)
        ensures
            r == self@.user_id,
    {
        return self.user_id;
    }

    pub fn flags(&self) -> (r: Option<&Vec<String>>)
        ensures
            match r {
                Some(v) => self@.flags == Some(v@.map_values(|s: String| s@)),
                None => self@.flags is None,
            },
    {
        return self.flags.as_ref();
    }

    /// The second (UNIX time) at which the passport expires.
    pub fn expirey(&self) -> (r: Timestamp)
        ensures
            r == self@.expirey,
    {
        return self.expirey;
    }
}

} // verus!
