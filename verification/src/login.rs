//! The identity model for the login request: the mutually exclusive ways a
//! client can say who is authenticating, the authentication mechanism, and
//! the verified codec between those values and the wire document.

use vstd::prelude::*;

use crate::json::{
    InnerValueModel, JsonObject, TopValue, TopValueModel, lookup, lookup_value, str_eq_lit,
};

pub mod user_serde;

verus! {

/// The medium of a third party identifier.
#[derive(Clone, Copy, Debug, PartialEq, Eq, Structural)]
pub enum Medium {
    /// An email address.
    Email,
    /// A phone number represented as a Mobile Station International
    /// Subscriber Directory Number (as defined by the E.164 numbering plan).
    Msisdn,
}

/// The medium of a third party identifier in the deprecated flat shape,
/// which never expressed phone numbers: a strict subset of `Medium`.
#[derive(Clone, Copy, Debug, PartialEq, Eq, Structural)]
pub enum DeprecatedMedium {
    /// An email address.
    Email,
}

impl Medium {
    /// The canonical lowercase wire string of this medium.
    pub open spec fn wire_model(self) -> Seq<char> {
        match self {
            Medium::Email => "email"@,
            Medium::Msisdn => "msisdn"@,
        }
    }

    /// The canonical lowercase wire string of this medium.
    pub fn wire_name(self) -> (r: String)
        ensures
            r@ == self.wire_model(),
    {
        match self {
            Medium::Email => "email".to_owned(),
            Medium::Msisdn => "msisdn".to_owned(),
        }
    }

    /// Reads a medium back from its wire string, if the string is in the
    /// medium vocabulary.
    pub fn from_wire(s: &String) -> (r: Option<Medium>)
        ensures
            r == medium_from_wire(s@),
    {
        if str_eq_lit(s, "email") {
            Some(Medium::Email)
        } else if str_eq_lit(s, "msisdn") {
            Some(Medium::Msisdn)
        } else {
            None
        }
    }
}

/// The medium denoted by a wire string, if any.
pub open spec fn medium_from_wire(s: Seq<char>) -> Option<Medium> {
    if s == "email"@ {
        Some(Medium::Email)
    } else if s == "msisdn"@ {
        Some(Medium::Msisdn)
    } else {
        None
    }
}

impl DeprecatedMedium {
    /// The canonical lowercase wire string of this medium.
    pub open spec fn wire_model(self) -> Seq<char> {
        "email"@
    }

    /// The canonical lowercase wire string of this medium.
    pub fn wire_name(self) -> (r: String)
        ensures
            r@ == self.wire_model(),
    {
        "email".to_owned()
    }
}

/// Identification information for the user.
///
/// Exactly one variant is active; the strings are opaque to this layer and
/// are carried without normalization or validation.
#[derive(Clone, Debug, PartialEq, Eq)]
pub enum User {
    /// Either a fully qualified user ID or just the localpart, in the modern
    /// nested `identifier` form.
    MatrixId(String),
    /// The same identification, in the deprecated flat `user` form.
    DeprecatedMatrixId(String),
    /// Third party identifier, in the modern nested `identifier` form.
    ThirdPartyId {
        /// Third party identifier for the user.
        address: String,
        /// The medium of the identifier.
        medium: Medium,
    },
    /// Third party identifier, in the deprecated flat form.
    DeprecatedThirdPartyId {
        /// Third party identifier for the user.
        address: String,
        /// The medium of the identifier.
        medium: DeprecatedMedium,
    },
    /// A non-canonicalized phone number, always in the modern nested form.
    PhoneNumber {
        /// The country that the phone number is from.
        country: String,
        /// The phone number.
        phone: String,
    },
}

/// Mathematical model of a `User`.
pub enum UserModel {
    MatrixId(Seq<char>),
    DeprecatedMatrixId(Seq<char>),
    ThirdPartyId { address: Seq<char>, medium: Medium },
    DeprecatedThirdPartyId { address: Seq<char>, medium: DeprecatedMedium },
    PhoneNumber { country: Seq<char>, phone: Seq<char> },
}

impl View for User {
    type V = UserModel;

    open spec fn view(&self) -> UserModel {
        match self {
            User::MatrixId(user) => UserModel::MatrixId(user@),
            User::DeprecatedMatrixId(user) => UserModel::DeprecatedMatrixId(user@),
            User::ThirdPartyId { address, medium } => UserModel::ThirdPartyId {
                address: address@,
                medium: *medium,
            },
            User::DeprecatedThirdPartyId { address, medium } => UserModel::DeprecatedThirdPartyId {
                address: address@,
                medium: *medium,
            },
            User::PhoneNumber { country, phone } => UserModel::PhoneNumber {
                country: country@,
                phone: phone@,
            },
        }
    }
}

/// The authentication mechanism.
#[derive(Clone, Debug, PartialEq, Eq)]
pub enum LoginType {
    /// A password is supplied to authenticate.
    Password {
        /// The password.
        password: String,
    },
    /// Token-based login.
    Token {
        /// The token.
        token: String,
    },
}

/// Mathematical model of a `LoginType`.
pub enum LoginTypeModel {
    Password { password: Seq<char> },
    Token { token: Seq<char> },
}

impl View for LoginType {
    type V = LoginTypeModel;

    open spec fn view(&self) -> LoginTypeModel {
        match self {
            LoginType::Password { password } => LoginTypeModel::Password { password: password@ },
            LoginType::Token { token } => LoginTypeModel::Token { token: token@ },
        }
    }
}

/// Why a document failed to decode.
#[derive(Clone, Copy, Debug, PartialEq, Eq, Structural)]
pub enum DecodeErrorKind {
    /// The document matches none of the recognized shapes.
    UnrecognizedShape,
    /// An explicit type tag names no known variant.
    UnknownTag,
    /// The flat legacy shape carries a medium outside the deprecated
    /// vocabulary, which has no legacy representation.
    InvalidDeprecatedMedium,
    /// A recognized field holds a value of the wrong type.
    MalformedField,
}

/// A decode failure, carrying the offending document for diagnostics.
#[derive(Debug, PartialEq, Eq)]
pub struct DecodeError {
    /// What went wrong.
    pub kind: DecodeErrorKind,
    /// The document that failed to decode.
    pub document: JsonObject,
}

/// The exact document an authentication mechanism encodes to: its explicit
/// type tag followed by the one field of the variant.
pub open spec fn login_type_fields(t: LoginTypeModel) -> Seq<(Seq<char>, TopValueModel)> {
    match t {
        LoginTypeModel::Password { password } => seq![
            ("type"@, TopValueModel::Str("m.login.password"@)),
            ("password"@, TopValueModel::Str(password)),
        ],
        LoginTypeModel::Token { token } => seq![
            ("type"@, TopValueModel::Str("m.login.token"@)),
            ("token"@, TopValueModel::Str(token)),
        ],
    }
}

/// What an authentication mechanism document decodes to: tag dispatch on the
/// explicit `type` field, tolerating unrelated sibling fields.
pub open spec fn decode_login_type_fields(obj: Seq<(Seq<char>, TopValueModel)>) -> Result<
    LoginTypeModel,
    DecodeErrorKind,
> {
    match lookup(obj, "type"@) {
        Some(TopValueModel::Str(tag)) => {
            if tag == "m.login.password"@ {
                match lookup(obj, "password"@) {
                    Some(TopValueModel::Str(password)) => Ok(
                        LoginTypeModel::Password { password },
                    ),
                    Some(_) => Err(DecodeErrorKind::MalformedField),
                    None => Err(DecodeErrorKind::UnrecognizedShape),
                }
            } else if tag == "m.login.token"@ {
                match lookup(obj, "token"@) {
                    Some(TopValueModel::Str(token)) => Ok(LoginTypeModel::Token { token }),
                    Some(_) => Err(DecodeErrorKind::MalformedField),
                    None => Err(DecodeErrorKind::UnrecognizedShape),
                }
            } else {
                Err(DecodeErrorKind::UnknownTag)
            }
        },
        Some(_) => Err(DecodeErrorKind::MalformedField),
        None => Err(DecodeErrorKind::UnrecognizedShape),
    }
}

impl LoginType {
    /// Encodes this mechanism as its tagged JSON object fragment.
    pub fn encode(&self) -> (r: JsonObject)
        ensures
            r@ == login_type_fields(self@),
    {
        let mut fields: Vec<(String, TopValue)> = Vec::new();
        match self {
            LoginType::Password { password } => {
                fields.push(("type".to_owned(), TopValue::Str("m.login.password".to_owned())));
                fields.push(("password".to_owned(), TopValue::Str(password.clone())));
            },
            LoginType::Token { token } => {
                fields.push(("type".to_owned(), TopValue::Str("m.login.token".to_owned())));
                fields.push(("token".to_owned(), TopValue::Str(token.clone())));
            },
        }
        let r = JsonObject { fields };
        proof {
            assert(r@ =~= login_type_fields(self@));
        }
        r
    }

    /// Decodes a mechanism from a parsed document, which may carry unrelated
    /// sibling fields; on failure the document is handed back inside the
    /// error.
    pub fn decode(document: JsonObject) -> (r: Result<LoginType, DecodeError>)
        ensures
            match r {
                Ok(t) => decode_login_type_fields(document@) == Ok::<
                    LoginTypeModel,
                    DecodeErrorKind,
                >(t@),
                Err(e) => decode_login_type_fields(document@) == Err::<
                    LoginTypeModel,
                    DecodeErrorKind,
                >(e.kind) && e.document@ == document@,
            },
    {
        let step: Result<LoginType, DecodeErrorKind> = match lookup_value(
            &document.fields,
            "type",
        ) {
            Some(TopValue::Str(tag)) => {
                if str_eq_lit(tag, "m.login.password") {
                    match lookup_value(&document.fields, "password") {
                        Some(TopValue::Str(password)) => Ok(
                            LoginType::Password { password: password.clone() },
                        ),
                        Some(_) => Err(DecodeErrorKind::MalformedField),
                        None => Err(DecodeErrorKind::UnrecognizedShape),
                    }
                } else if str_eq_lit(tag, "m.login.token") {
                    match lookup_value(&document.fields, "token") {
                        Some(TopValue::Str(token)) => Ok(
                            LoginType::Token { token: token.clone() },
                        ),
                        Some(_) => Err(DecodeErrorKind::MalformedField),
                        None => Err(DecodeErrorKind::UnrecognizedShape),
                    }
                } else {
                    Err(DecodeErrorKind::UnknownTag)
                }
            },
            Some(_) => Err(DecodeErrorKind::MalformedField),
            None => Err(DecodeErrorKind::UnrecognizedShape),
        };
        match step {
            Ok(t) => Ok(t),
            Err(kind) => Err(DecodeError { kind, document }),
        }
    }
}

/// The exact document an identity value encodes to.
pub open spec fn user_fields(u: UserModel) -> Seq<(Seq<char>, TopValueModel)> {
    user_serde::wire_fields(user_serde::user_to_wire(u))
}

/// What an identity document decodes to.
pub open spec fn decode_user_fields(obj: Seq<(Seq<char>, TopValueModel)>) -> Result<
    UserModel,
    DecodeErrorKind,
> {
    match user_serde::decode_wire_fields(obj) {
        Ok(w) => Ok(user_serde::wire_to_user(w)),
        Err(k) => Err(k),
    }
}

impl User {
    /// Encodes this identity value as the JSON object fragment of its
    /// variant: the modern variants nest under the `identifier` key, the
    /// deprecated ones stay flat.
    pub fn encode(&self) -> (r: JsonObject)
        ensures
            r@ == user_fields(self@),
    {
        user_serde::User::from(self).encode()
    }

    /// Decodes an identity value from a parsed document, which may carry
    /// unrelated sibling fields; on failure the document is handed back
    /// inside the error.
    pub fn decode(document: JsonObject) -> (r: Result<User, DecodeError>)
        ensures
            match r {
                Ok(u) => decode_user_fields(document@) == Ok::<UserModel, DecodeErrorKind>(u@),
                Err(e) => decode_user_fields(document@) == Err::<UserModel, DecodeErrorKind>(
                    e.kind,
                ) && e.document@ == document@,
            },
    {
        match user_serde::User::decode(&document) {
            Ok(w) => Ok(w.into()),
            Err(kind) => Err(DecodeError { kind, document }),
        }
    }
}

/// Round trip: decoding the document an identity value encodes to yields
/// that value back, for every constructible identity value.
pub proof fn lemma_user_round_trip(u: UserModel)
    ensures
        decode_user_fields(user_fields(u)) == Ok::<UserModel, DecodeErrorKind>(u),
{
    user_serde::lemma_wire_round_trip(user_serde::user_to_wire(u));
    user_serde::lemma_conversion_round_trip(u);
}

/// No two identity values encode to the same document, which is what makes
/// decoding well-defined.
pub proof fn lemma_encode_injective(u: UserModel, v: UserModel)
    requires
        user_fields(u) == user_fields(v),
    ensures
        u == v,
{
    lemma_user_round_trip(u);
    lemma_user_round_trip(v);
}

/// Precedence: whenever a document carries the `identifier` key — even
/// beside a top-level `user` key or the flat third-party pair — it decodes
/// through the modern nested branch alone, and the outcome depends only on
/// the value under `identifier`.
pub proof fn lemma_identifier_precedence(obj: Seq<(Seq<char>, TopValueModel)>, inner: Seq<
    (Seq<char>, InnerValueModel),
>)
    requires
        lookup(obj, "identifier"@) == Some(TopValueModel::Object(inner)),
    ensures
        decode_user_fields(obj) == (match user_serde::decode_identifier_fields(inner) {
            Ok(id) => Ok::<UserModel, DecodeErrorKind>(
                user_serde::wire_to_user(
                    user_serde::WireUserModel::UserIdentifier { identifier: id },
                ),
            ),
            Err(k) => Err::<UserModel, DecodeErrorKind>(k),
        }),
{
}

/// Medium restriction: without an `identifier` or `user` key, an `address`
/// paired with any medium string other than `email` — `msisdn` included —
/// is rejected, never widened to the full medium vocabulary.
pub proof fn lemma_deprecated_medium_restriction(
    obj: Seq<(Seq<char>, TopValueModel)>,
    address: Seq<char>,
    medium_str: Seq<char>,
)
    requires
        lookup(obj, "identifier"@) is None,
        lookup(obj, "user"@) is None,
        lookup(obj, "address"@) == Some(TopValueModel::Str(address)),
        lookup(obj, "medium"@) == Some(TopValueModel::Str(medium_str)),
        medium_str != "email"@,
    ensures
        decode_user_fields(obj) == Err::<UserModel, DecodeErrorKind>(
            DecodeErrorKind::InvalidDeprecatedMedium,
        ),
{
}

/// Decoding the document a mechanism encodes to yields that mechanism back.
pub proof fn lemma_login_type_round_trip(t: LoginTypeModel)
    ensures
        decode_login_type_fields(login_type_fields(t)) == Ok::<LoginTypeModel, DecodeErrorKind>(t),
{
    reveal_strlit("type");
    reveal_strlit("password");
    reveal_strlit("token");
    reveal_strlit("m.login.password");
    reveal_strlit("m.login.token");
    let fields = login_type_fields(t);
    assert(fields[0].0 == "type"@);
    assert(lookup(fields, "type"@) == Some(fields[0].1));
    match t {
        LoginTypeModel::Password { password } => {
            assert(fields[0].1 == TopValueModel::Str("m.login.password"@));
            assert(lookup(fields, "password"@) == lookup(fields.drop_first(), "password"@));
            assert(fields.drop_first()[0] == fields[1]);
            assert(fields[1] == ("password"@, TopValueModel::Str(password)));
            assert(lookup(fields, "password"@) == Some(TopValueModel::Str(password)));
            assert(decode_login_type_fields(fields) == Ok::<LoginTypeModel, DecodeErrorKind>(
                LoginTypeModel::Password { password },
            ));
        },
        LoginTypeModel::Token { token } => {
            assert(fields[0].1 == TopValueModel::Str("m.login.token"@));
            assert("m.login.token"@.len() == 13);
            assert("m.login.password"@.len() == 16);
            assert("m.login.token"@ != "m.login.password"@);
            assert(lookup(fields, "token"@) == lookup(fields.drop_first(), "token"@));
            assert(fields.drop_first()[0] == fields[1]);
            assert(fields[1] == ("token"@, TopValueModel::Str(token)));
            assert(lookup(fields, "token"@) == Some(TopValueModel::Str(token)));
            assert(decode_login_type_fields(fields) == Ok::<LoginTypeModel, DecodeErrorKind>(
                LoginTypeModel::Token { token },
            ));
        },
    }
}

} // verus!
