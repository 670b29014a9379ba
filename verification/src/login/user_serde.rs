//! The wire shapes of the login identity — the modern tagged nested form and
//! the deprecated flat forms — together with the verified conversions between
//! the identity model, the wire shapes, and JSON documents.

use vstd::prelude::*;

use crate::json::{
    InnerValue, InnerValueModel, JsonObject, TopValue, TopValueModel, fields_model, lookup,
    lookup_value, str_eq_lit,
};
use super::{DecodeErrorKind, DeprecatedMedium, Medium, medium_from_wire};

verus! {

/// The modern nested identifier, discriminated by an explicit `type` tag.
#[derive(Clone, Debug, PartialEq, Eq)]
pub enum UserIdentifier {
    MatrixId { user: String },
    ThirdPartyId { medium: Medium, address: String },
    PhoneNumber { country: String, phone: String },
}

/// Mathematical model of a `UserIdentifier`.
pub enum UserIdentifierModel {
    MatrixId { user: Seq<char> },
    ThirdPartyId { medium: Medium, address: Seq<char> },
    PhoneNumber { country: Seq<char>, phone: Seq<char> },
}

impl View for UserIdentifier {
    type V = UserIdentifierModel;

    open spec fn view(&self) -> UserIdentifierModel {
        match self {
            UserIdentifier::MatrixId { user } => UserIdentifierModel::MatrixId { user: user@ },
            UserIdentifier::ThirdPartyId { medium, address } => UserIdentifierModel::ThirdPartyId {
                medium: *medium,
                address: address@,
            },
            UserIdentifier::PhoneNumber { country, phone } => UserIdentifierModel::PhoneNumber {
                country: country@,
                phone: phone@,
            },
        }
    }
}

/// The deprecated flat identifier, disambiguated by which keys are present
/// rather than by a tag.
#[derive(Clone, Debug, PartialEq, Eq)]
pub enum DeprecatedUserIdentifier {
    MatrixId { user: String },
    ThirdPartyId { address: String, medium: DeprecatedMedium },
}

/// Mathematical model of a `DeprecatedUserIdentifier`.
pub enum DeprecatedUserIdentifierModel {
    MatrixId { user: Seq<char> },
    ThirdPartyId { address: Seq<char>, medium: DeprecatedMedium },
}

impl View for DeprecatedUserIdentifier {
    type V = DeprecatedUserIdentifierModel;

    open spec fn view(&self) -> DeprecatedUserIdentifierModel {
        match self {
            DeprecatedUserIdentifier::MatrixId { user } => DeprecatedUserIdentifierModel::MatrixId {
                user: user@,
            },
            DeprecatedUserIdentifier::ThirdPartyId { address, medium } =>
                DeprecatedUserIdentifierModel::ThirdPartyId { address: address@, medium: *medium },
        }
    }
}

/// The outermost wire shape: either a deprecated flat identifier or the
/// modern form nested under the `identifier` key.
#[derive(Clone, Debug, PartialEq, Eq)]
pub enum User {
    DeprecatedUserIdentifier(DeprecatedUserIdentifier),
    UserIdentifier { identifier: UserIdentifier },
}

/// Mathematical model of a wire-level `User`.
pub enum WireUserModel {
    DeprecatedUserIdentifier(DeprecatedUserIdentifierModel),
    UserIdentifier { identifier: UserIdentifierModel },
}

impl View for User {
    type V = WireUserModel;

    open spec fn view(&self) -> WireUserModel {
        match self {
            User::DeprecatedUserIdentifier(d) => WireUserModel::DeprecatedUserIdentifier(d@),
            User::UserIdentifier { identifier } => WireUserModel::UserIdentifier {
                identifier: identifier@,
            },
        }
    }
}

/// The inner object a modern identifier encodes to: its `type` tag followed
/// by the fields of the variant, and nothing else.
pub open spec fn identifier_fields(m: UserIdentifierModel) -> Seq<(Seq<char>, InnerValueModel)> {
    match m {
        UserIdentifierModel::MatrixId { user } => seq![
            ("type"@, InnerValueModel::Str("m.id.user"@)),
            ("user"@, InnerValueModel::Str(user)),
        ],
        UserIdentifierModel::ThirdPartyId { medium, address } => seq![
            ("type"@, InnerValueModel::Str("m.id.thirdparty"@)),
            ("medium"@, InnerValueModel::Str(medium.wire_model())),
            ("address"@, InnerValueModel::Str(address)),
        ],
        UserIdentifierModel::PhoneNumber { country, phone } => seq![
            ("type"@, InnerValueModel::Str("m.id.phone"@)),
            ("country"@, InnerValueModel::Str(country)),
            ("phone"@, InnerValueModel::Str(phone)),
        ],
    }
}

/// What the nested `identifier` object decodes to: dispatch on the explicit
/// `type` tag; an unknown tag, or a missing or mistyped field of the matched
/// tag, is a failure.
pub open spec fn decode_identifier_fields(obj: Seq<(Seq<char>, InnerValueModel)>) -> Result<
    UserIdentifierModel,
    DecodeErrorKind,
> {
    match lookup(obj, "type"@) {
        Some(InnerValueModel::Str(tag)) => {
            if tag == "m.id.user"@ {
                match lookup(obj, "user"@) {
                    Some(InnerValueModel::Str(user)) => Ok(UserIdentifierModel::MatrixId { user }),
                    Some(_) => Err(DecodeErrorKind::MalformedField),
                    None => Err(DecodeErrorKind::UnrecognizedShape),
                }
            } else if tag == "m.id.thirdparty"@ {
                match lookup(obj, "medium"@) {
                    Some(InnerValueModel::Str(medium_str)) => match lookup(obj, "address"@) {
                        Some(InnerValueModel::Str(address)) => match medium_from_wire(medium_str) {
                            Some(medium) => Ok(
                                UserIdentifierModel::ThirdPartyId { medium, address },
                            ),
                            None => Err(DecodeErrorKind::MalformedField),
                        },
                        Some(_) => Err(DecodeErrorKind::MalformedField),
                        None => Err(DecodeErrorKind::UnrecognizedShape),
                    },
                    Some(_) => Err(DecodeErrorKind::MalformedField),
                    None => Err(DecodeErrorKind::UnrecognizedShape),
                }
            } else if tag == "m.id.phone"@ {
                match lookup(obj, "country"@) {
                    Some(InnerValueModel::Str(country)) => match lookup(obj, "phone"@) {
                        Some(InnerValueModel::Str(phone)) => Ok(
                            UserIdentifierModel::PhoneNumber { country, phone },
                        ),
                        Some(_) => Err(DecodeErrorKind::MalformedField),
                        None => Err(DecodeErrorKind::UnrecognizedShape),
                    },
                    Some(_) => Err(DecodeErrorKind::MalformedField),
                    None => Err(DecodeErrorKind::UnrecognizedShape),
                }
            } else {
                Err(DecodeErrorKind::UnknownTag)
            }
        },
        Some(_) => Err(DecodeErrorKind::MalformedField),
        None => Err(DecodeErrorKind::UnrecognizedShape),
    }
}

/// The top-level fields a deprecated flat identifier encodes to.
pub open spec fn deprecated_fields(m: DeprecatedUserIdentifierModel) -> Seq<
    (Seq<char>, TopValueModel),
> {
    match m {
        DeprecatedUserIdentifierModel::MatrixId { user } => seq![
            ("user"@, TopValueModel::Str(user)),
        ],
        DeprecatedUserIdentifierModel::ThirdPartyId { address, medium } => seq![
            ("address"@, TopValueModel::Str(address)),
            ("medium"@, TopValueModel::Str(medium.wire_model())),
        ],
    }
}

/// What a document decodes to through the deprecated flat shapes: a `user`
/// key wins over the third-party pair, and the medium of the pair must be in
/// the deprecated vocabulary — `msisdn` has no legacy representation and
/// must fail rather than be coerced.
pub open spec fn decode_deprecated_fields(obj: Seq<(Seq<char>, TopValueModel)>) -> Result<
    DeprecatedUserIdentifierModel,
    DecodeErrorKind,
> {
    match lookup(obj, "user"@) {
        Some(TopValueModel::Str(user)) => Ok(DeprecatedUserIdentifierModel::MatrixId { user }),
        Some(_) => Err(DecodeErrorKind::MalformedField),
        None => match lookup(obj, "address"@) {
            Some(TopValueModel::Str(address)) => match lookup(obj, "medium"@) {
                Some(TopValueModel::Str(medium_str)) => {
                    if medium_str == "email"@ {
                        Ok(
                            DeprecatedUserIdentifierModel::ThirdPartyId {
                                address,
                                medium: DeprecatedMedium::Email,
                            },
                        )
                    } else {
                        Err(DecodeErrorKind::InvalidDeprecatedMedium)
                    }
                },
                Some(_) => Err(DecodeErrorKind::MalformedField),
                None => Err(DecodeErrorKind::UnrecognizedShape),
            },
            Some(_) => Err(DecodeErrorKind::MalformedField),
            None => Err(DecodeErrorKind::UnrecognizedShape),
        },
    }
}

/// The document a wire identity encodes to.
pub open spec fn wire_fields(w: WireUserModel) -> Seq<(Seq<char>, TopValueModel)> {
    match w {
        WireUserModel::DeprecatedUserIdentifier(d) => deprecated_fields(d),
        WireUserModel::UserIdentifier { identifier } => seq![
            ("identifier"@, TopValueModel::Object(identifier_fields(identifier))),
        ],
    }
}

/// What a document decodes to: the modern nested form wins whenever the
/// `identifier` key is present; only without it are the flat shapes tried.
pub open spec fn decode_wire_fields(obj: Seq<(Seq<char>, TopValueModel)>) -> Result<
    WireUserModel,
    DecodeErrorKind,
> {
    match lookup(obj, "identifier"@) {
        Some(TopValueModel::Object(inner)) => match decode_identifier_fields(inner) {
            Ok(identifier) => Ok(WireUserModel::UserIdentifier { identifier }),
            Err(k) => Err(k),
        },
        Some(_) => Err(DecodeErrorKind::MalformedField),
        None => match decode_deprecated_fields(obj) {
            Ok(d) => Ok(WireUserModel::DeprecatedUserIdentifier(d)),
            Err(k) => Err(k),
        },
    }
}

impl UserIdentifier {
    /// Encodes this identifier as the inner object of the nested form.
    pub fn encode(&self) -> (r: Vec<(String, InnerValue)>)
        ensures
            fields_model(r@) == identifier_fields(self@),
    {
        let mut fields: Vec<(String, InnerValue)> = Vec::new();
        match self {
            UserIdentifier::MatrixId { user } => {
                fields.push(("type".to_owned(), InnerValue::Str("m.id.user".to_owned())));
                fields.push(("user".to_owned(), InnerValue::Str(user.clone())));
            },
            UserIdentifier::ThirdPartyId { medium, address } => {
                fields.push(("type".to_owned(), InnerValue::Str("m.id.thirdparty".to_owned())));
                fields.push(("medium".to_owned(), InnerValue::Str(medium.wire_name())));
                fields.push(("address".to_owned(), InnerValue::Str(address.clone())));
            },
            UserIdentifier::PhoneNumber { country, phone } => {
                fields.push(("type".to_owned(), InnerValue::Str("m.id.phone".to_owned())));
                fields.push(("country".to_owned(), InnerValue::Str(country.clone())));
                fields.push(("phone".to_owned(), InnerValue::Str(phone.clone())));
            },
        }
        proof {
            assert(fields_model(fields@) =~= identifier_fields(self@));
        }
        fields
    }

    /// Decodes the inner object of the nested form by its `type` tag.
    pub fn decode(fields: &Vec<(String, InnerValue)>) -> (r: Result<
        UserIdentifier,
        DecodeErrorKind,
    >)
        ensures
            match r {
                Ok(id) => decode_identifier_fields(fields_model(fields@)) == Ok::<
                    UserIdentifierModel,
                    DecodeErrorKind,
                >(id@),
                Err(k) => decode_identifier_fields(fields_model(fields@)) == Err::<
                    UserIdentifierModel,
                    DecodeErrorKind,
                >(k),
            },
    {
        match lookup_value(fields, "type") {
            Some(InnerValue::Str(tag)) => {
                if str_eq_lit(tag, "m.id.user") {
                    match lookup_value(fields, "user") {
                        Some(InnerValue::Str(user)) => Ok(
                            UserIdentifier::MatrixId { user: user.clone() },
                        ),
                        Some(_) => Err(DecodeErrorKind::MalformedField),
                        None => Err(DecodeErrorKind::UnrecognizedShape),
                    }
                } else if str_eq_lit(tag, "m.id.thirdparty") {
                    match lookup_value(fields, "medium") {
                        Some(InnerValue::Str(medium_str)) => match lookup_value(
                            fields,
                            "address",
                        ) {
                            Some(InnerValue::Str(address)) => match Medium::from_wire(medium_str) {
                                Some(medium) => Ok(
                                    UserIdentifier::ThirdPartyId {
                                        medium,
                                        address: address.clone(),
                                    },
                                ),
                                None => Err(DecodeErrorKind::MalformedField),
                            },
                            Some(_) => Err(DecodeErrorKind::MalformedField),
                            None => Err(DecodeErrorKind::UnrecognizedShape),
                        },
                        Some(_) => Err(DecodeErrorKind::MalformedField),
                        None => Err(DecodeErrorKind::UnrecognizedShape),
                    }
                } else if str_eq_lit(tag, "m.id.phone") {
                    match lookup_value(fields, "country") {
                        Some(InnerValue::Str(country)) => match lookup_value(fields, "phone") {
                            Some(InnerValue::Str(phone)) => Ok(
                                UserIdentifier::PhoneNumber {
                                    country: country.clone(),
                                    phone: phone.clone(),
                                },
                            ),
                            Some(_) => Err(DecodeErrorKind::MalformedField),
                            None => Err(DecodeErrorKind::UnrecognizedShape),
                        },
                        Some(_) => Err(DecodeErrorKind::MalformedField),
                        None => Err(DecodeErrorKind::UnrecognizedShape),
                    }
                } else {
                    Err(DecodeErrorKind::UnknownTag)
                }
            },
            Some(_) => Err(DecodeErrorKind::MalformedField),
            None => Err(DecodeErrorKind::UnrecognizedShape),
        }
    }
}

impl DeprecatedUserIdentifier {
    /// Encodes this identifier as its flat top-level fields.
    pub fn encode(&self) -> (r: JsonObject)
        ensures
            r@ == deprecated_fields(self@),
    {
        let mut fields: Vec<(String, TopValue)> = Vec::new();
        match self {
            DeprecatedUserIdentifier::MatrixId { user } => {
                fields.push(("user".to_owned(), TopValue::Str(user.clone())));
            },
            DeprecatedUserIdentifier::ThirdPartyId { address, medium } => {
                fields.push(("address".to_owned(), TopValue::Str(address.clone())));
                fields.push(("medium".to_owned(), TopValue::Str(medium.wire_name())));
            },
        }
        let r = JsonObject { fields };
        proof {
            assert(r@ =~= deprecated_fields(self@));
        }
        r
    }

    /// Decodes a document through the deprecated flat shapes, by which of
    /// the recognized keys are present.
    pub fn decode(document: &JsonObject) -> (r: Result<DeprecatedUserIdentifier, DecodeErrorKind>)
        ensures
            match r {
                Ok(d) => decode_deprecated_fields(document@) == Ok::<
                    DeprecatedUserIdentifierModel,
                    DecodeErrorKind,
                >(d@),
                Err(k) => decode_deprecated_fields(document@) == Err::<
                    DeprecatedUserIdentifierModel,
                    DecodeErrorKind,
                >(k),
            },
    {
        match lookup_value(&document.fields, "user") {
            Some(TopValue::Str(user)) => Ok(
                DeprecatedUserIdentifier::MatrixId { user: user.clone() },
            ),
            Some(_) => Err(DecodeErrorKind::MalformedField),
            None => match lookup_value(&document.fields, "address") {
                Some(TopValue::Str(address)) => match lookup_value(&document.fields, "medium") {
                    Some(TopValue::Str(medium_str)) => {
                        if str_eq_lit(medium_str, "email") {
                            Ok(
                                DeprecatedUserIdentifier::ThirdPartyId {
                                    address: address.clone(),
                                    medium: DeprecatedMedium::Email,
                                },
                            )
                        } else {
                            Err(DecodeErrorKind::InvalidDeprecatedMedium)
                        }
                    },
                    Some(_) => Err(DecodeErrorKind::MalformedField),
                    None => Err(DecodeErrorKind::UnrecognizedShape),
                },
                Some(_) => Err(DecodeErrorKind::MalformedField),
                None => Err(DecodeErrorKind::UnrecognizedShape),
            },
        }
    }
}

impl User {
    /// Builds the wire form of an identity value, copying its strings.
    pub fn from(su: &super::User) -> (r: User)
        ensures
            r@ == user_to_wire(su@),
    {
        match su {
            super::User::MatrixId(user) => User::UserIdentifier {
                identifier: UserIdentifier::MatrixId { user: user.clone() },
            },
            super::User::DeprecatedMatrixId(user) => User::DeprecatedUserIdentifier(
                DeprecatedUserIdentifier::MatrixId { user: user.clone() },
            ),
            super::User::ThirdPartyId { address, medium } => User::UserIdentifier {
                identifier: UserIdentifier::ThirdPartyId {
                    medium: *medium,
                    address: address.clone(),
                },
            },
            super::User::DeprecatedThirdPartyId { address, medium } =>
                User::DeprecatedUserIdentifier(
                    DeprecatedUserIdentifier::ThirdPartyId {
                        address: address.clone(),
                        medium: *medium,
                    },
                ),
            super::User::PhoneNumber { country, phone } => User::UserIdentifier {
                identifier: UserIdentifier::PhoneNumber {
                    country: country.clone(),
                    phone: phone.clone(),
                },
            },
        }
    }

    /// The identity value this wire form stands for, taking ownership of its
    /// strings.
    pub fn into(self) -> (r: super::User)
        ensures
            r@ == wire_to_user(self@),
    {
        match self {
            User::UserIdentifier {
                identifier: UserIdentifier::MatrixId { user },
            } => super::User::MatrixId(user),
            User::UserIdentifier {
                identifier: UserIdentifier::ThirdPartyId { medium, address },
            } => super::User::ThirdPartyId { address, medium },
            User::UserIdentifier {
                identifier: UserIdentifier::PhoneNumber { country, phone },
            } => super::User::PhoneNumber { country, phone },
            User::DeprecatedUserIdentifier(
                DeprecatedUserIdentifier::MatrixId { user },
            ) => super::User::DeprecatedMatrixId(user),
            User::DeprecatedUserIdentifier(
                DeprecatedUserIdentifier::ThirdPartyId { address, medium },
            ) => super::User::DeprecatedThirdPartyId { address, medium },
        }
    }

    /// Encodes this wire form as its JSON document.
    pub fn encode(&self) -> (r: JsonObject)
        ensures
            r@ == wire_fields(self@),
    {
        match self {
            User::DeprecatedUserIdentifier(d) => d.encode(),
            User::UserIdentifier { identifier } => {
                let inner: Vec<(String, InnerValue)> = identifier.encode();
                let mut fields: Vec<(String, TopValue)> = Vec::new();
                fields.push(("identifier".to_owned(), TopValue::Object(inner)));
                let r = JsonObject { fields };
                proof {
                    assert(r@ =~= wire_fields(self@));
                }
                r
            },
        }
    }

    /// Decodes a document into its wire form, giving the modern nested form
    /// precedence over the deprecated flat shapes.
    pub fn decode(document: &JsonObject) -> (r: Result<User, DecodeErrorKind>)
        ensures
            match r {
                Ok(w) => decode_wire_fields(document@) == Ok::<WireUserModel, DecodeErrorKind>(w@),
                Err(k) => decode_wire_fields(document@) == Err::<WireUserModel, DecodeErrorKind>(
                    k,
                ),
            },
    {
        match lookup_value(&document.fields, "identifier") {
            Some(TopValue::Object(inner)) => match UserIdentifier::decode(inner) {
                Ok(identifier) => Ok(User::UserIdentifier { identifier }),
                Err(k) => Err(k),
            },
            Some(_) => Err(DecodeErrorKind::MalformedField),
            None => match DeprecatedUserIdentifier::decode(document) {
                Ok(d) => Ok(User::DeprecatedUserIdentifier(d)),
                Err(k) => Err(k),
            },
        }
    }
}

/// The wire form of an identity model value.
pub open spec fn user_to_wire(u: super::UserModel) -> WireUserModel {
    match u {
        super::UserModel::MatrixId(user) => WireUserModel::UserIdentifier {
            identifier: UserIdentifierModel::MatrixId { user },
        },
        super::UserModel::DeprecatedMatrixId(user) => WireUserModel::DeprecatedUserIdentifier(
            DeprecatedUserIdentifierModel::MatrixId { user },
        ),
        super::UserModel::ThirdPartyId { address, medium } => WireUserModel::UserIdentifier {
            identifier: UserIdentifierModel::ThirdPartyId { medium, address },
        },
        super::UserModel::DeprecatedThirdPartyId { address, medium } =>
            WireUserModel::DeprecatedUserIdentifier(
                DeprecatedUserIdentifierModel::ThirdPartyId { address, medium },
            ),
        super::UserModel::PhoneNumber { country, phone } => WireUserModel::UserIdentifier {
            identifier: UserIdentifierModel::PhoneNumber { country, phone },
        },
    }
}

/// The identity model value a wire form stands for.
pub open spec fn wire_to_user(w: WireUserModel) -> super::UserModel {
    match w {
        WireUserModel::UserIdentifier {
            identifier: UserIdentifierModel::MatrixId { user },
        } => super::UserModel::MatrixId(user),
        WireUserModel::UserIdentifier {
            identifier: UserIdentifierModel::ThirdPartyId { medium, address },
        } => super::UserModel::ThirdPartyId { address, medium },
        WireUserModel::UserIdentifier {
            identifier: UserIdentifierModel::PhoneNumber { country, phone },
        } => super::UserModel::PhoneNumber { country, phone },
        WireUserModel::DeprecatedUserIdentifier(
            DeprecatedUserIdentifierModel::MatrixId { user },
        ) => super::UserModel::DeprecatedMatrixId(user),
        WireUserModel::DeprecatedUserIdentifier(
            DeprecatedUserIdentifierModel::ThirdPartyId { address, medium },
        ) => super::UserModel::DeprecatedThirdPartyId { address, medium },
    }
}

/// The protocol key and tag constants are pairwise distinct wherever the
/// decode chains have to tell them apart.
proof fn lemma_wire_constants()
    ensures
        "user"@ != "identifier"@,
        "address"@ != "identifier"@,
        "medium"@ != "identifier"@,
        "address"@ != "user"@,
        "medium"@ != "user"@,
        "address"@ != "medium"@,
        "type"@ != "user"@,
        "type"@ != "medium"@,
        "type"@ != "address"@,
        "type"@ != "country"@,
        "type"@ != "phone"@,
        "country"@ != "phone"@,
        "m.id.thirdparty"@ != "m.id.user"@,
        "m.id.phone"@ != "m.id.user"@,
        "m.id.phone"@ != "m.id.thirdparty"@,
        "msisdn"@ != "email"@,
{
    reveal_strlit("type");
    reveal_strlit("user");
    reveal_strlit("medium");
    reveal_strlit("address");
    reveal_strlit("country");
    reveal_strlit("phone");
    reveal_strlit("identifier");
    reveal_strlit("m.id.user");
    reveal_strlit("m.id.thirdparty");
    reveal_strlit("m.id.phone");
    reveal_strlit("email");
    reveal_strlit("msisdn");
    assert("type"@.len() == 4);
    assert("user"@.len() == 4);
    assert("medium"@.len() == 6);
    assert("address"@.len() == 7);
    assert("country"@.len() == 7);
    assert("phone"@.len() == 5);
    assert("identifier"@.len() == 10);
    assert("m.id.user"@.len() == 9);
    assert("m.id.thirdparty"@.len() == 15);
    assert("m.id.phone"@.len() == 10);
    assert("email"@.len() == 5);
    assert("msisdn"@.len() == 6);
    assert("type"@[0] != "user"@[0]);
}

/// Decoding the inner object a modern identifier encodes to yields that
/// identifier back.
pub proof fn lemma_identifier_round_trip(m: UserIdentifierModel)
    ensures
        decode_identifier_fields(identifier_fields(m)) == Ok::<
            UserIdentifierModel,
            DecodeErrorKind,
        >(m),
{
    lemma_wire_constants();
    let fields = identifier_fields(m);
    assert(lookup(fields, "type"@) == Some(fields[0].1));
    match m {
        UserIdentifierModel::MatrixId { user } => {
            assert(fields[0].1 == InnerValueModel::Str("m.id.user"@));
            assert(lookup(fields, "user"@) == lookup(fields.drop_first(), "user"@));
            assert(fields.drop_first()[0] == fields[1]);
            assert(lookup(fields, "user"@) == Some(InnerValueModel::Str(user)));
        },
        UserIdentifierModel::ThirdPartyId { medium, address } => {
            assert(fields[0].1 == InnerValueModel::Str("m.id.thirdparty"@));
            assert(lookup(fields, "medium"@) == lookup(fields.drop_first(), "medium"@));
            assert(fields.drop_first()[0] == fields[1]);
            assert(lookup(fields, "medium"@) == Some(
                InnerValueModel::Str(medium.wire_model()),
            ));
            assert(lookup(fields, "address"@) == lookup(fields.drop_first(), "address"@));
            assert(lookup(fields.drop_first(), "address"@) == lookup(
                fields.drop_first().drop_first(),
                "address"@,
            ));
            assert(fields.drop_first().drop_first()[0] == fields[2]);
            assert(lookup(fields, "address"@) == Some(InnerValueModel::Str(address)));
            assert(medium_from_wire(medium.wire_model()) == Some(medium)) by {
                match medium {
                    Medium::Email => {
                    },
                    Medium::Msisdn => {
                    },
                }
            };
        },
        UserIdentifierModel::PhoneNumber { country, phone } => {
            assert(fields[0].1 == InnerValueModel::Str("m.id.phone"@));
            assert(lookup(fields, "country"@) == lookup(fields.drop_first(), "country"@));
            assert(fields.drop_first()[0] == fields[1]);
            assert(lookup(fields, "country"@) == Some(InnerValueModel::Str(country)));
            assert(lookup(fields, "phone"@) == lookup(fields.drop_first(), "phone"@));
            assert(lookup(fields.drop_first(), "phone"@) == lookup(
                fields.drop_first().drop_first(),
                "phone"@,
            ));
            assert(fields.drop_first().drop_first()[0] == fields[2]);
            assert(lookup(fields, "phone"@) == Some(InnerValueModel::Str(phone)));
        },
    }
}

/// Decoding the flat fields a deprecated identifier encodes to yields that
/// identifier back.
pub proof fn lemma_deprecated_round_trip(m: DeprecatedUserIdentifierModel)
    ensures
        decode_deprecated_fields(deprecated_fields(m)) == Ok::<
            DeprecatedUserIdentifierModel,
            DecodeErrorKind,
        >(m),
{
    lemma_wire_constants();
    let fields = deprecated_fields(m);
    match m {
        DeprecatedUserIdentifierModel::MatrixId { user } => {
            assert(lookup(fields, "user"@) == Some(TopValueModel::Str(user)));
        },
        DeprecatedUserIdentifierModel::ThirdPartyId { address, medium } => {
            assert(lookup(fields, "user"@) == lookup(fields.drop_first(), "user"@));
            assert(fields.drop_first()[0] == fields[1]);
            assert(lookup(fields.drop_first(), "user"@) == lookup(
                fields.drop_first().drop_first(),
                "user"@,
            ));
            assert(fields.drop_first().drop_first() =~= Seq::<
                (Seq<char>, TopValueModel),
            >::empty());
            assert(lookup(fields, "user"@) is None);
            assert(lookup(fields, "address"@) == Some(TopValueModel::Str(address)));
            assert(lookup(fields, "medium"@) == lookup(fields.drop_first(), "medium"@));
            assert(lookup(fields, "medium"@) == Some(
                TopValueModel::Str(medium.wire_model()),
            ));
            assert(medium.wire_model() == "email"@);
        },
    }
}

/// Decoding the document a wire identity encodes to yields that wire
/// identity back.
pub proof fn lemma_wire_round_trip(w: WireUserModel)
    ensures
        decode_wire_fields(wire_fields(w)) == Ok::<WireUserModel, DecodeErrorKind>(w),
{
    lemma_wire_constants();
    let fields = wire_fields(w);
    match w {
        WireUserModel::UserIdentifier { identifier } => {
            assert(lookup(fields, "identifier"@) == Some(fields[0].1));
            lemma_identifier_round_trip(identifier);
        },
        WireUserModel::DeprecatedUserIdentifier(d) => {
            match d {
                DeprecatedUserIdentifierModel::MatrixId { user } => {
                    assert(lookup(fields, "identifier"@) == lookup(
                        fields.drop_first(),
                        "identifier"@,
                    ));
                    assert(fields.drop_first() =~= Seq::<(Seq<char>, TopValueModel)>::empty());
                    assert(lookup(fields, "identifier"@) is None);
                },
                DeprecatedUserIdentifierModel::ThirdPartyId { address, medium } => {
                    assert(lookup(fields, "identifier"@) == lookup(
                        fields.drop_first(),
                        "identifier"@,
                    ));
                    assert(fields.drop_first()[0] == fields[1]);
                    assert(lookup(fields.drop_first(), "identifier"@) == lookup(
                        fields.drop_first().drop_first(),
                        "identifier"@,
                    ));
                    assert(fields.drop_first().drop_first() =~= Seq::<
                        (Seq<char>, TopValueModel),
                    >::empty());
                    assert(lookup(fields, "identifier"@) is None);
                },
            }
            lemma_deprecated_round_trip(d);
        },
    }
}

/// Carrying an identity value to its wire form and back changes nothing.
pub proof fn lemma_conversion_round_trip(u: super::UserModel)
    ensures
        wire_to_user(user_to_wire(u)) == u,
{
}

} // verus!
