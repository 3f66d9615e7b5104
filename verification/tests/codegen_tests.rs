use strenum::codegen::codegen;
use strenum::codegen::Config;
use strenum::codegen::Data;
use strenum::codegen::VariantConfig;

fn variant(ident: &str, text: &str, const_name: Option<&str>) -> VariantConfig {
    VariantConfig {
        ident: ident.to_string(),
        text: text.to_string(),
        const_name: const_name.map(|n| n.to_string()),
    }
}

fn order_config(serde: bool) -> Config {
    Config {
        ident: "Order".to_string(),
        data: Data::Enum(vec![
            variant("Full", "full", None),
            variant("Short", "short", None),
        ]),
        from: None,
        to: None,
        serde,
    }
}

#[test]
fn test_macro() {
    let code = codegen(&order_config(false)).unwrap();
    assert!(code.contains("pub const FULL: &'static str = \"full\";"));
    assert!(code.contains("pub const SHORT: &'static str = \"short\";"));
}

#[test]
fn generates_impl_block_exactly() {
    let code = codegen(&order_config(false)).unwrap();
    let expected = "impl Order {
    pub const FULL: &'static str = \"full\";
    pub const SHORT: &'static str = \"short\";
    pub fn from_text(text: &impl ::core::convert::AsRef<str>) -> ::core::option::Option<Self> {
        match <_ as ::core::convert::AsRef<str>>::as_ref(text) {
            Self::FULL => ::core::option::Option::Some(Self::Full),
            Self::SHORT => ::core::option::Option::Some(Self::Short),
            _ => ::core::option::Option::None,
        }
    }
    pub const fn text(&self) -> &str {
        match self {
            Self::Full => Self::FULL,
            Self::Short => Self::SHORT,
        }
    }
}
";
    assert_eq!(code, expected);
}

#[test]
fn generates_serde_adapters_exactly() {
    let cfg = Config {
        ident: "Order".to_string(),
        data: Data::Enum(vec![variant("Full", "full", None)]),
        from: None,
        to: None,
        serde: true,
    };
    let code = codegen(&cfg).unwrap();
    let expected = "impl ::serde::Serialize for Order {
    fn serialize<S>(&self, serializer: S) -> ::core::result::Result<S::Ok, S::Error>
    where
        S: ::serde::Serializer,
    {
        serializer.serialize_str(self.text())
    }
}
impl<'de> ::serde::Deserialize<'de> for Order {
    fn deserialize<D>(deserializer: D) -> ::core::result::Result<Self, D::Error>
    where
        D: ::serde::Deserializer<'de>,
    {
        #[allow(non_camel_case_types)]
        #[derive(::serde::Deserialize)]
        enum __impl_Order {
            #[serde(rename = \"full\")]
            Full,
        }
        let result = <__impl_Order as ::serde::Deserialize<'de>>::deserialize(deserializer)?;
        Ok(match result {
            __impl_Order::Full => Order::Full,
        })
    }
}
impl Order {
    pub const FULL: &'static str = \"full\";
    pub fn from_text(text: &impl ::core::convert::AsRef<str>) -> ::core::option::Option<Self> {
        match <_ as ::core::convert::AsRef<str>>::as_ref(text) {
            Self::FULL => ::core::option::Option::Some(Self::Full),
            _ => ::core::option::Option::None,
        }
    }
    pub const fn text(&self) -> &str {
        match self {
            Self::Full => Self::FULL,
        }
    }
}
";
    assert_eq!(code, expected);
}

#[test]
fn default_const_name_is_upper_snake() {
    let cfg = Config {
        ident: "Kind".to_string(),
        data: Data::Enum(vec![variant("FooBar", "foo bar", None)]),
        from: None,
        to: None,
        serde: false,
    };
    let code = codegen(&cfg).unwrap();
    assert!(code.contains("pub const FOO_BAR: &'static str = \"foo bar\";"));
    assert!(code.contains("Self::FOO_BAR => ::core::option::Option::Some(Self::FooBar),"));
}

#[test]
fn const_name_override_is_kept() {
    let cfg = Config {
        ident: "Kind".to_string(),
        data: Data::Enum(vec![variant("Full", "full", Some("WHOLE"))]),
        from: None,
        to: None,
        serde: false,
    };
    let code = codegen(&cfg).unwrap();
    assert!(code.contains("pub const WHOLE: &'static str = \"full\";"));
    assert!(code.contains("Self::Full => Self::WHOLE,"));
}

#[test]
fn accessor_names_can_be_renamed() {
    let cfg = Config {
        ident: "Kind".to_string(),
        data: Data::Enum(vec![variant("Full", "full", None)]),
        from: Some("parse".to_string()),
        to: Some("as_text".to_string()),
        serde: false,
    };
    let code = codegen(&cfg).unwrap();
    assert!(code.contains("pub fn parse(text:"));
    assert!(code.contains("pub const fn as_text(&self)"));
}

#[test]
fn empty_enum_still_generates_accessors() {
    let cfg = Config {
        ident: "Kind".to_string(),
        data: Data::Enum(vec![]),
        from: None,
        to: None,
        serde: false,
    };
    let code = codegen(&cfg).unwrap();
    assert!(code.contains("pub fn from_text(text:"));
    assert!(code.contains("_ => ::core::option::Option::None,"));
    assert!(!code.contains(": &'static str"));
}

#[test]
fn texts_are_escaped_in_literals() {
    let cfg = Config {
        ident: "Kind".to_string(),
        data: Data::Enum(vec![variant("Odd", "a\"b\\c", None)]),
        from: None,
        to: None,
        serde: true,
    };
    let code = codegen(&cfg).unwrap();
    assert!(code.contains("pub const ODD: &'static str = \"a\\\"b\\\\c\";"));
    assert!(code.contains("#[serde(rename = \"a\\\"b\\\\c\")]"));
}

#[test]
fn rejects_non_enum() {
    let cfg = Config {
        ident: "Point".to_string(),
        data: Data::Struct,
        from: None,
        to: None,
        serde: true,
    };
    assert_eq!(codegen(&cfg), Err("target must be an enum".to_string()));
}

#[test]
fn rejects_invalid_const_name() {
    let cfg = Config {
        ident: "Kind".to_string(),
        data: Data::Enum(vec![variant("Full", "full", Some("9FULL"))]),
        from: None,
        to: None,
        serde: false,
    };
    assert_eq!(
        codegen(&cfg),
        Err("`9FULL` is not a valid identifier".to_string())
    );
}

#[test]
fn rejects_invalid_accessor_name() {
    let cfg = Config {
        ident: "Kind".to_string(),
        data: Data::Enum(vec![variant("Full", "full", None)]),
        from: Some("not-ok".to_string()),
        to: None,
        serde: false,
    };
    assert_eq!(
        codegen(&cfg),
        Err("`not-ok` is not a valid identifier".to_string())
    );
}

#[test]
fn reports_the_enum_name_first() {
    let cfg = Config {
        ident: "bad name".to_string(),
        data: Data::Enum(vec![variant("Full", "full", Some("9FULL"))]),
        from: Some("also bad".to_string()),
        to: None,
        serde: false,
    };
    assert_eq!(
        codegen(&cfg),
        Err("`bad name` is not a valid identifier".to_string())
    );
}

#[test]
fn rejects_lone_underscore_name() {
    let cfg = Config {
        ident: "Kind".to_string(),
        data: Data::Enum(vec![variant("Full", "full", Some("_"))]),
        from: None,
        to: None,
        serde: false,
    };
    assert_eq!(
        codegen(&cfg),
        Err("`_` is not a valid identifier".to_string())
    );
}
