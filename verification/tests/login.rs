use matrix_login::json::{InnerValue, JsonObject, TopValue};
use matrix_login::login::{DecodeErrorKind, DeprecatedMedium, LoginType, Medium, User};

#[test]
fn deserialize_login_type() {
    assert_eq!(
        LoginType::decode(JsonObject {
            fields: vec![
                (
                    "type".to_string(),
                    TopValue::Str("m.login.password".to_string())
                ),
                (
                    "password".to_string(),
                    TopValue::Str("ilovebananas".to_string())
                ),
            ],
        })
        .unwrap(),
        LoginType::Password {
            password: "ilovebananas".into()
        }
    );

    assert_eq!(
        LoginType::decode(JsonObject {
            fields: vec![
                (
                    "type".to_string(),
                    TopValue::Str("m.login.token".to_string())
                ),
                (
                    "token".to_string(),
                    TopValue::Str("1234567890abcdef".to_string())
                ),
            ],
        })
        .unwrap(),
        LoginType::Token {
            token: "1234567890abcdef".into()
        }
    );
}

#[test]
fn deserialize_user() {
    assert_eq!(
        User::decode(JsonObject {
            fields: vec![(
                "identifier".to_string(),
                TopValue::Object(vec![
                    ("type".to_string(), InnerValue::Str("m.id.user".to_string())),
                    (
                        "user".to_string(),
                        InnerValue::Str("cheeky_monkey".to_string())
                    ),
                ]),
            )],
        })
        .unwrap(),
        User::MatrixId("cheeky_monkey".into())
    );

    assert_eq!(
        User::decode(JsonObject {
            fields: vec![(
                "user".to_string(),
                TopValue::Str("cheeky_monkey".to_string())
            )],
        })
        .unwrap(),
        User::DeprecatedMatrixId("cheeky_monkey".into())
    );
}

#[test]
fn deserialize_user_phone_number() {
    assert_eq!(
        User::decode(JsonObject {
            fields: vec![(
                "identifier".to_string(),
                TopValue::Object(vec![
                    (
                        "type".to_string(),
                        InnerValue::Str("m.id.phone".to_string())
                    ),
                    ("country".to_string(), InnerValue::Str("GB".to_string())),
                    (
                        "phone".to_string(),
                        InnerValue::Str("07700900000".to_string())
                    ),
                ]),
            )],
        })
        .unwrap(),
        User::PhoneNumber {
            country: "GB".into(),
            phone: "07700900000".into()
        }
    );
}

#[test]
fn deserialize_user_third_party() {
    assert_eq!(
        User::decode(JsonObject {
            fields: vec![(
                "identifier".to_string(),
                TopValue::Object(vec![
                    (
                        "type".to_string(),
                        InnerValue::Str("m.id.thirdparty".to_string())
                    ),
                    ("medium".to_string(), InnerValue::Str("msisdn".to_string())),
                    (
                        "address".to_string(),
                        InnerValue::Str("447700900000".to_string())
                    ),
                ]),
            )],
        })
        .unwrap(),
        User::ThirdPartyId {
            address: "447700900000".into(),
            medium: Medium::Msisdn
        }
    );
}

#[test]
fn deserialize_deprecated_third_party() {
    assert_eq!(
        User::decode(JsonObject {
            fields: vec![
                ("address".to_string(), TopValue::Str("a@b.com".to_string())),
                ("medium".to_string(), TopValue::Str("email".to_string())),
            ],
        })
        .unwrap(),
        User::DeprecatedThirdPartyId {
            address: "a@b.com".into(),
            medium: DeprecatedMedium::Email
        }
    );
}

#[test]
fn deserialize_rejects_msisdn_in_deprecated_shape() {
    let err = User::decode(JsonObject {
        fields: vec![
            ("address".to_string(), TopValue::Str("a@b.com".to_string())),
            ("medium".to_string(), TopValue::Str("msisdn".to_string())),
        ],
    })
    .unwrap_err();
    assert_eq!(err.kind, DecodeErrorKind::InvalidDeprecatedMedium);
}

#[test]
fn deserialize_rejects_unknown_tag() {
    let err = User::decode(JsonObject {
        fields: vec![(
            "identifier".to_string(),
            TopValue::Object(vec![(
                "type".to_string(),
                InnerValue::Str("m.id.unknown".to_string()),
            )]),
        )],
    })
    .unwrap_err();
    assert_eq!(err.kind, DecodeErrorKind::UnknownTag);
}

#[test]
fn identifier_takes_precedence_over_flat_user() {
    assert_eq!(
        User::decode(JsonObject {
            fields: vec![
                (
                    "identifier".to_string(),
                    TopValue::Object(vec![
                        ("type".to_string(), InnerValue::Str("m.id.user".to_string())),
                        ("user".to_string(), InnerValue::Str("modern".to_string())),
                    ]),
                ),
                ("user".to_string(), TopValue::Str("legacy".to_string())),
            ],
        })
        .unwrap(),
        User::MatrixId("modern".into())
    );
}

#[test]
fn unrelated_sibling_fields_are_tolerated() {
    assert_eq!(
        User::decode(JsonObject {
            fields: vec![
                (
                    "type".to_string(),
                    TopValue::Str("m.login.password".to_string())
                ),
                ("device_id".to_string(), TopValue::Other),
                ("user".to_string(), TopValue::Str("cheeky_monkey".to_string())),
                (
                    "initial_device_display_name".to_string(),
                    TopValue::Str("Mobile".to_string())
                ),
            ],
        })
        .unwrap(),
        User::DeprecatedMatrixId("cheeky_monkey".into())
    );
}
