use matrix_login::json::{InnerValue, JsonObject, TopValue};
use matrix_login::login::user_serde;
use matrix_login::login::{DecodeErrorKind, DeprecatedMedium, LoginType, Medium, User};

#[test]
fn encode_matrix_id_is_nested() {
    assert_eq!(
        User::MatrixId("cheeky_monkey".into()).encode(),
        JsonObject {
            fields: vec![(
                "identifier".to_string(),
                TopValue::Object(vec![
                    ("type".to_string(), InnerValue::Str("m.id.user".to_string())),
                    (
                        "user".to_string(),
                        InnerValue::Str("cheeky_monkey".to_string())
                    ),
                ]),
            )],
        }
    );
}

#[test]
fn encode_deprecated_matrix_id_is_flat() {
    assert_eq!(
        User::DeprecatedMatrixId("cheeky_monkey".into()).encode(),
        JsonObject {
            fields: vec![(
                "user".to_string(),
                TopValue::Str("cheeky_monkey".to_string())
            )],
        }
    );
}

#[test]
fn encode_third_party_id_is_nested() {
    assert_eq!(
        User::ThirdPartyId {
            address: "a@b.com".into(),
            medium: Medium::Email
        }
        .encode(),
        JsonObject {
            fields: vec![(
                "identifier".to_string(),
                TopValue::Object(vec![
                    (
                        "type".to_string(),
                        InnerValue::Str("m.id.thirdparty".to_string())
                    ),
                    ("medium".to_string(), InnerValue::Str("email".to_string())),
                    ("address".to_string(), InnerValue::Str("a@b.com".to_string())),
                ]),
            )],
        }
    );
}

#[test]
fn encode_deprecated_third_party_id_is_flat() {
    assert_eq!(
        User::DeprecatedThirdPartyId {
            address: "a@b.com".into(),
            medium: DeprecatedMedium::Email
        }
        .encode(),
        JsonObject {
            fields: vec![
                ("address".to_string(), TopValue::Str("a@b.com".to_string())),
                ("medium".to_string(), TopValue::Str("email".to_string())),
            ],
        }
    );
}

#[test]
fn encode_phone_number_is_nested() {
    assert_eq!(
        User::PhoneNumber {
            country: "GB".into(),
            phone: "07700900000".into()
        }
        .encode(),
        JsonObject {
            fields: vec![(
                "identifier".to_string(),
                TopValue::Object(vec![
                    (
                        "type".to_string(),
                        InnerValue::Str("m.id.phone".to_string())
                    ),
                    ("country".to_string(), InnerValue::Str("GB".to_string())),
                    (
                        "phone".to_string(),
                        InnerValue::Str("07700900000".to_string())
                    ),
                ]),
            )],
        }
    );
}

#[test]
fn round_trip_every_user_variant() {
    let values = vec![
        User::MatrixId("@alice:example.org".into()),
        User::DeprecatedMatrixId("alice".into()),
        User::ThirdPartyId {
            address: "a@b.com".into(),
            medium: Medium::Email,
        },
        User::ThirdPartyId {
            address: "447700900000".into(),
            medium: Medium::Msisdn,
        },
        User::DeprecatedThirdPartyId {
            address: "a@b.com".into(),
            medium: DeprecatedMedium::Email,
        },
        User::PhoneNumber {
            country: "GB".into(),
            phone: "07700900000".into(),
        },
    ];
    for v in values {
        assert_eq!(User::decode(v.encode()), Ok(v));
    }
}

#[test]
fn round_trip_every_login_type_variant() {
    let values = vec![
        LoginType::Password {
            password: "ilovebananas".into(),
        },
        LoginType::Token {
            token: "1234567890abcdef".into(),
        },
    ];
    for v in values {
        assert_eq!(LoginType::decode(v.encode()), Ok(v));
    }
}

#[test]
fn wire_conversion_round_trip() {
    let values = vec![
        User::MatrixId("alice".into()),
        User::DeprecatedMatrixId("alice".into()),
        User::ThirdPartyId {
            address: "a@b.com".into(),
            medium: Medium::Msisdn,
        },
        User::DeprecatedThirdPartyId {
            address: "a@b.com".into(),
            medium: DeprecatedMedium::Email,
        },
        User::PhoneNumber {
            country: "GB".into(),
            phone: "07700900000".into(),
        },
    ];
    for v in values {
        assert_eq!(user_serde::User::from(&v).into(), v);
    }
}

#[test]
fn wire_from_picks_the_matching_shape() {
    assert_eq!(
        user_serde::User::from(&User::MatrixId("alice".into())),
        user_serde::User::UserIdentifier {
            identifier: user_serde::UserIdentifier::MatrixId {
                user: "alice".into()
            }
        }
    );
    assert_eq!(
        user_serde::User::from(&User::DeprecatedMatrixId("alice".into())),
        user_serde::User::DeprecatedUserIdentifier(user_serde::DeprecatedUserIdentifier::MatrixId {
            user: "alice".into()
        })
    );
}

#[test]
fn empty_document_is_unrecognized_and_returned() {
    let err = User::decode(JsonObject { fields: vec![] }).unwrap_err();
    assert_eq!(err.kind, DecodeErrorKind::UnrecognizedShape);
    assert_eq!(err.document, JsonObject { fields: vec![] });
}

#[test]
fn mistyped_user_field_is_malformed() {
    let err = User::decode(JsonObject {
        fields: vec![("user".to_string(), TopValue::Other)],
    })
    .unwrap_err();
    assert_eq!(err.kind, DecodeErrorKind::MalformedField);
}

#[test]
fn mistyped_identifier_field_is_malformed() {
    let err = User::decode(JsonObject {
        fields: vec![("identifier".to_string(), TopValue::Str("alice".to_string()))],
    })
    .unwrap_err();
    assert_eq!(err.kind, DecodeErrorKind::MalformedField);
}

#[test]
fn missing_tag_field_is_unrecognized() {
    let err = User::decode(JsonObject {
        fields: vec![(
            "identifier".to_string(),
            TopValue::Object(vec![(
                "type".to_string(),
                InnerValue::Str("m.id.user".to_string()),
            )]),
        )],
    })
    .unwrap_err();
    assert_eq!(err.kind, DecodeErrorKind::UnrecognizedShape);
}

#[test]
fn address_without_medium_is_unrecognized() {
    let err = User::decode(JsonObject {
        fields: vec![("address".to_string(), TopValue::Str("a@b.com".to_string()))],
    })
    .unwrap_err();
    assert_eq!(err.kind, DecodeErrorKind::UnrecognizedShape);
}

#[test]
fn garbage_medium_in_deprecated_shape_is_invalid() {
    let err = User::decode(JsonObject {
        fields: vec![
            ("address".to_string(), TopValue::Str("a@b.com".to_string())),
            ("medium".to_string(), TopValue::Str("pigeon".to_string())),
        ],
    })
    .unwrap_err();
    assert_eq!(err.kind, DecodeErrorKind::InvalidDeprecatedMedium);
}

#[test]
fn unknown_medium_in_modern_shape_is_malformed() {
    let err = User::decode(JsonObject {
        fields: vec![(
            "identifier".to_string(),
            TopValue::Object(vec![
                (
                    "type".to_string(),
                    InnerValue::Str("m.id.thirdparty".to_string()),
                ),
                ("medium".to_string(), InnerValue::Str("pigeon".to_string())),
                ("address".to_string(), InnerValue::Str("a@b.com".to_string())),
            ]),
        )],
    })
    .unwrap_err();
    assert_eq!(err.kind, DecodeErrorKind::MalformedField);
}

#[test]
fn login_type_unknown_tag_fails() {
    let err = LoginType::decode(JsonObject {
        fields: vec![(
            "type".to_string(),
            TopValue::Str("m.login.unknown".to_string()),
        )],
    })
    .unwrap_err();
    assert_eq!(err.kind, DecodeErrorKind::UnknownTag);
}

#[test]
fn login_type_missing_credential_fails() {
    let err = LoginType::decode(JsonObject {
        fields: vec![(
            "type".to_string(),
            TopValue::Str("m.login.password".to_string()),
        )],
    })
    .unwrap_err();
    assert_eq!(err.kind, DecodeErrorKind::UnrecognizedShape);
}

#[test]
fn first_occurrence_of_a_key_wins() {
    assert_eq!(
        User::decode(JsonObject {
            fields: vec![
                ("user".to_string(), TopValue::Str("first".to_string())),
                ("user".to_string(), TopValue::Str("second".to_string())),
            ],
        })
        .unwrap(),
        User::DeprecatedMatrixId("first".into())
    );
}

#[test]
fn medium_wire_names_are_canonical() {
    assert_eq!(Medium::Email.wire_name(), "email".to_string());
    assert_eq!(Medium::Msisdn.wire_name(), "msisdn".to_string());
    assert_eq!(DeprecatedMedium::Email.wire_name(), "email".to_string());
    assert_eq!(Medium::from_wire(&"email".to_string()), Some(Medium::Email));
    assert_eq!(
        Medium::from_wire(&"msisdn".to_string()),
        Some(Medium::Msisdn)
    );
    assert_eq!(Medium::from_wire(&"pigeon".to_string()), None);
}
