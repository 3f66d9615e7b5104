//! The code generator.
//!
//! A [`Config`] describes an enumerated type whose variants each stand for a
//! fixed string: the enum's name, one [`VariantConfig`] per variant, the
//! names of the two generated accessors, and whether serialization adapters
//! are wanted. [`codegen`] turns such a description into the source text of
//! the generated items, or into a diagnostic where the description is not an
//! enum or holds an ill-formed name.
//!
//! The generated text declares, inside one `impl` block: a string constant
//! per variant, a function from a string to the matching variant (the first
//! variant whose constant matches; `None` where none does), and a function
//! from a variant to its string. With [`Config::serde`] set, adapters
//! precede the block that serialize the enum as that string and deserialize
//! it through a renamed mirror enum.

use vstd::prelude::*;

use crate::escape::escape;
use crate::escape::escaped;
use crate::ident::check_ident;
use crate::ident::is_valid_ident;

verus! {

/// One variant of the target enum: its name, the string it stands for, and
/// an optional name for its generated string constant.
pub struct VariantConfig {
    /// The variant's name.
    pub ident: String,
    /// The string the variant stands for.
    pub text: String,
    /// The name of the generated constant; the upper-snake form of the
    /// variant's name where none is given.
    pub const_name: Option<String>,
}

/// The shape of the annotated item: code is generated for an enum alone.
pub enum Data {
    /// An enum with its variants, in declaration order.
    Enum(Vec<VariantConfig>),
    /// Any other shape of item.
    Struct,
}

/// Everything the generator reads from the annotated item.
pub struct Config {
    /// The enum's name.
    pub ident: String,
    /// The item's shape and, for an enum, its variants.
    pub data: Data,
    /// The name of the generated string-to-variant function; `from_text`
    /// where none is given.
    pub from: Option<String>,
    /// The name of the generated variant-to-string function; `text` where
    /// none is given.
    pub to: Option<String>,
    /// Whether the serialization adapters are generated too.
    pub serde: bool,
}

/// The upper-snake form of a name, as the case conversion library computes
/// it: a function of the characters alone.
pub uninterp spec fn upper_snake_of(s: Seq<char>) -> Seq<char>;

/// Relies on `convert_case::Casing::to_case` with `Case::UpperSnake`: the
/// upper-snake form of a name, computed from the characters alone.
#[verifier::external_body]
fn upper_snake(s: &str) -> (r: String)
    ensures
        r@ == upper_snake_of(s@),
{
    convert_case::Casing::to_case(&s, convert_case::Case::UpperSnake)
}

/// The variants of the target enum; empty where the item is not an enum.
pub open spec fn spec_variants(cfg: Config) -> Seq<VariantConfig> {
    match cfg.data {
        Data::Enum(vs) => vs@,
        Data::Struct => Seq::empty(),
    }
}

/// The generated constant's name for one variant.
pub open spec fn spec_const_name(v: VariantConfig) -> Seq<char> {
    match v.const_name {
        Some(n) => n@,
        None => upper_snake_of(v.ident@),
    }
}

/// The name of the generated string-to-variant function.
pub open spec fn spec_from_name(cfg: Config) -> Seq<char> {
    match cfg.from {
        Some(n) => n@,
        None => "from_text"@,
    }
}

/// The name of the generated variant-to-string function.
pub open spec fn spec_to_name(cfg: Config) -> Seq<char> {
    match cfg.to {
        Some(n) => n@,
        None => "text"@,
    }
}

/// The names that the generated code declares for one variant are well
/// formed.
pub open spec fn variant_names_valid(v: VariantConfig) -> bool {
    is_valid_ident(v.ident@) && is_valid_ident(spec_const_name(v))
}

/// Every name that the generated code declares is well formed.
pub open spec fn names_valid(cfg: Config) -> bool {
    &&& is_valid_ident(cfg.ident@)
    &&& is_valid_ident(spec_from_name(cfg))
    &&& is_valid_ident(spec_to_name(cfg))
    &&& forall|i: int|
        0 <= i < spec_variants(cfg).len() ==> variant_names_valid(#[trigger] spec_variants(cfg)[i])
}

/// The generator succeeds exactly on an enum all of whose names are well
/// formed.
pub open spec fn spec_ok(cfg: Config) -> bool {
    cfg.data is Enum && names_valid(cfg)
}

/// The first ill-formed name among the variants, in declaration order: for
/// each variant its own name is looked at before its constant's name.
pub open spec fn first_invalid_variant_name(vs: Seq<VariantConfig>) -> Seq<char>
    decreases vs.len(),
{
    if vs.len() == 0 {
        Seq::empty()
    } else if !is_valid_ident(vs[0].ident@) {
        vs[0].ident@
    } else if !is_valid_ident(spec_const_name(vs[0])) {
        spec_const_name(vs[0])
    } else {
        first_invalid_variant_name(vs.skip(1))
    }
}

/// The first ill-formed name in the whole configuration: the enum's own
/// name, then the two accessor names, then the variants' names.
pub open spec fn first_invalid_name(cfg: Config) -> Seq<char> {
    if !is_valid_ident(cfg.ident@) {
        cfg.ident@
    } else if !is_valid_ident(spec_from_name(cfg)) {
        spec_from_name(cfg)
    } else if !is_valid_ident(spec_to_name(cfg)) {
        spec_to_name(cfg)
    } else {
        first_invalid_variant_name(spec_variants(cfg))
    }
}

/// The diagnostic for a configuration the generator rejects.
pub open spec fn spec_error(cfg: Config) -> Seq<char> {
    if !(cfg.data is Enum) {
        "target must be an enum"@
    } else {
        "`"@ + first_invalid_name(cfg) + "` is not a valid identifier"@
    }
}

/// The line declaring one variant's string constant.
pub open spec fn const_decl_line(cn: Seq<char>, text: Seq<char>) -> Seq<char> {
    "    pub const "@ + cn + ": &'static str = \""@ + escaped(text) + "\";\n"@
}

/// One arm of the generated string-to-variant match.
pub open spec fn from_arm_line(cn: Seq<char>, vid: Seq<char>) -> Seq<char> {
    "            Self::"@ + cn + " => ::core::option::Option::Some(Self::"@ + vid + "),\n"@
}

/// One arm of the generated variant-to-string match.
pub open spec fn to_arm_line(vid: Seq<char>, cn: Seq<char>) -> Seq<char> {
    "            Self::"@ + vid + " => Self::"@ + cn + ",\n"@
}

/// One renamed variant of the mirror enum that drives deserialization.
pub open spec fn rename_arm_line(text: Seq<char>, vid: Seq<char>) -> Seq<char> {
    "            #[serde(rename = \""@ + escaped(text) + "\")]\n            "@ + vid + ",\n"@
}

/// One arm mapping the mirror enum back onto the target enum.
pub open spec fn map_arm_line(enum_ident: Seq<char>, vid: Seq<char>) -> Seq<char> {
    "            __impl_"@ + enum_ident + "::"@ + vid + " => "@ + enum_ident + "::"@ + vid
        + ",\n"@
}

/// The constant declarations for the variants, in order.
pub open spec fn const_decls(vs: Seq<VariantConfig>) -> Seq<char>
    decreases vs.len(),
{
    if vs.len() == 0 {
        Seq::empty()
    } else {
        const_decls(vs.drop_last()) + const_decl_line(
            spec_const_name(vs.last()),
            vs.last().text@,
        )
    }
}

/// The string-to-variant arms for the variants, in order.
pub open spec fn from_arms(vs: Seq<VariantConfig>) -> Seq<char>
    decreases vs.len(),
{
    if vs.len() == 0 {
        Seq::empty()
    } else {
        from_arms(vs.drop_last()) + from_arm_line(spec_const_name(vs.last()), vs.last().ident@)
    }
}

/// The variant-to-string arms for the variants, in order.
pub open spec fn to_arms(vs: Seq<VariantConfig>) -> Seq<char>
    decreases vs.len(),
{
    if vs.len() == 0 {
        Seq::empty()
    } else {
        to_arms(vs.drop_last()) + to_arm_line(vs.last().ident@, spec_const_name(vs.last()))
    }
}

/// The renamed mirror variants for the variants, in order.
pub open spec fn rename_arms(vs: Seq<VariantConfig>) -> Seq<char>
    decreases vs.len(),
{
    if vs.len() == 0 {
        Seq::empty()
    } else {
        rename_arms(vs.drop_last()) + rename_arm_line(vs.last().text@, vs.last().ident@)
    }
}

/// The mirror-to-target arms for the variants, in order.
pub open spec fn map_arms(enum_ident: Seq<char>, vs: Seq<VariantConfig>) -> Seq<char>
    decreases vs.len(),
{
    if vs.len() == 0 {
        Seq::empty()
    } else {
        map_arms(enum_ident, vs.drop_last()) + map_arm_line(enum_ident, vs.last().ident@)
    }
}

/// The head of the generated string-to-variant function.
pub open spec fn from_fn_open(from_name: Seq<char>) -> Seq<char> {
    "    pub fn "@ + from_name
        + "(text: &impl ::core::convert::AsRef<str>) -> ::core::option::Option<Self> {\n        match <_ as ::core::convert::AsRef<str>>::as_ref(text) {\n"@
}

/// The head of the generated variant-to-string function.
pub open spec fn to_fn_open(to_name: Seq<char>) -> Seq<char> {
    "    pub const fn "@ + to_name + "(&self) -> &str {\n        match self {\n"@
}

/// The generated `impl` block: the constants and the two accessors.
pub open spec fn impl_block(
    enum_ident: Seq<char>,
    from_name: Seq<char>,
    to_name: Seq<char>,
    vs: Seq<VariantConfig>,
) -> Seq<char> {
    "impl "@ + enum_ident + " {\n"@ + const_decls(vs) + from_fn_open(from_name) + from_arms(vs)
        + "            _ => ::core::option::Option::None,\n        }\n    }\n"@ + to_fn_open(
        to_name,
    ) + to_arms(vs) + "        }\n    }\n}\n"@
}

/// The generated `Serialize` impl: the enum serializes as its string.
pub open spec fn serialize_impl(enum_ident: Seq<char>, to_name: Seq<char>) -> Seq<char> {
    "impl ::serde::Serialize for "@ + enum_ident
        + " {\n    fn serialize<S>(&self, serializer: S) -> ::core::result::Result<S::Ok, S::Error>\n    where\n        S: ::serde::Serializer,\n    {\n        serializer.serialize_str(self."@
        + to_name + "())\n    }\n}\n"@
}

/// The head of the generated `Deserialize` impl, up to the mirror enum's
/// variants.
pub open spec fn deserialize_open(enum_ident: Seq<char>) -> Seq<char> {
    "impl<'de> ::serde::Deserialize<'de> for "@ + enum_ident
        + " {\n    fn deserialize<D>(deserializer: D) -> ::core::result::Result<Self, D::Error>\n    where\n        D: ::serde::Deserializer<'de>,\n    {\n        #[allow(non_camel_case_types)]\n        #[derive(::serde::Deserialize)]\n        enum __impl_"@
        + enum_ident + " {\n"@
}

/// The middle of the generated `Deserialize` impl, between the mirror
/// enum's variants and the arms that map them back.
pub open spec fn deserialize_mid(enum_ident: Seq<char>) -> Seq<char> {
    "        }\n        let result = <__impl_"@ + enum_ident
        + " as ::serde::Deserialize<'de>>::deserialize(deserializer)?;\n        Ok(match result {\n"@
}

/// The generated `Deserialize` impl: the enum deserializes from its string,
/// through a mirror enum whose variants are renamed to the strings.
pub open spec fn deserialize_impl(enum_ident: Seq<char>, vs: Seq<VariantConfig>) -> Seq<char> {
    deserialize_open(enum_ident) + rename_arms(vs) + deserialize_mid(enum_ident) + map_arms(
        enum_ident,
        vs,
    ) + "        })\n    }\n}\n"@
}

/// The whole generated text for a well-formed configuration.
pub open spec fn spec_generated(cfg: Config) -> Seq<char> {
    if cfg.serde {
        serialize_impl(cfg.ident@, spec_to_name(cfg)) + deserialize_impl(
            cfg.ident@,
            spec_variants(cfg),
        ) + impl_block(cfg.ident@, spec_from_name(cfg), spec_to_name(cfg), spec_variants(cfg))
    } else {
        impl_block(cfg.ident@, spec_from_name(cfg), spec_to_name(cfg), spec_variants(cfg))
    }
}

fn invalid_ident_msg(name: &str) -> (r: String)
    ensures
        r@ == "`"@ + name@ + "` is not a valid identifier"@,
{
    let mut msg = String::from_str("`");
    msg.append(name);
    msg.append("` is not a valid identifier");
    proof {
        assert(msg@ =~= "`"@ + name@ + "` is not a valid identifier"@);
    }
    msg
}

proof fn lemma_first_invalid_skip(vs: Seq<VariantConfig>, j: int)
    requires
        0 <= j <= vs.len(),
        forall|k: int| 0 <= k < j ==> variant_names_valid(#[trigger] vs[k]),
    ensures
        first_invalid_variant_name(vs) == first_invalid_variant_name(vs.skip(j)),
    decreases j,
{
    if j > 0 {
        assert(variant_names_valid(vs[0]));
        assert forall|k: int| 0 <= k < j - 1 implies variant_names_valid(
            #[trigger] vs.skip(1)[k],
        ) by {
            assert(vs.skip(1)[k] == vs[k + 1]);
        }
        lemma_first_invalid_skip(vs.skip(1), j - 1);
        assert(vs.skip(1).skip(j - 1) =~= vs.skip(j));
        assert(first_invalid_variant_name(vs) == first_invalid_variant_name(vs.skip(1)));
    } else {
        assert(vs.skip(0) =~= vs);
    }
}

/// The generated constants' names for the variants, each checked to be well
/// formed, or the diagnostic for the first variant name that is not.
fn resolve_const_names(vs: &Vec<VariantConfig>) -> (r: Result<Vec<String>, String>)
    ensures
        r is Ok <==> (forall|i: int|
            0 <= i < vs@.len() ==> variant_names_valid(#[trigger] vs@[i])),
        r matches Ok(cns) ==> cns@.len() == vs@.len() && (forall|i: int|
            0 <= i < vs@.len() ==> (#[trigger] cns@[i])@ == spec_const_name(vs@[i])),
        r matches Err(msg) ==> msg@ == "`"@ + first_invalid_variant_name(vs@)
            + "` is not a valid identifier"@,
{
    let mut cns: Vec<String> = Vec::new();
    let mut j: usize = 0;
    while j < vs.len()
        invariant
            j <= vs@.len(),
            cns@.len() == j,
            forall|k: int| 0 <= k < j ==> variant_names_valid(#[trigger] vs@[k]),
            forall|k: int| 0 <= k < j ==> (#[trigger] cns@[k])@ == spec_const_name(vs@[k]),
        decreases vs@.len() - j,
    {
        let v = &vs[j];
        proof {
            lemma_first_invalid_skip(vs@, j as int);
            assert(vs@.skip(j as int)[0] == vs@[j as int]);
        }
        if !check_ident(v.ident.as_str()) {
            return Err(invalid_ident_msg(v.ident.as_str()));
        }
        let cn: String = match &v.const_name {
            Some(n) => n.clone(),
            None => upper_snake(v.ident.as_str()),
        };
        if !check_ident(cn.as_str()) {
            return Err(invalid_ident_msg(cn.as_str()));
        }
        cns.push(cn);
        j += 1;
    }
    Ok(cns)
}

fn push_serialize_impl(out: &mut String, enum_ident: &str, to_name: &str)
    ensures
        final(out)@ == old(out)@ + serialize_impl(enum_ident@, to_name@),
{
    out.append("impl ::serde::Serialize for ");
    out.append(enum_ident);
    out.append(
        " {\n    fn serialize<S>(&self, serializer: S) -> ::core::result::Result<S::Ok, S::Error>\n    where\n        S: ::serde::Serializer,\n    {\n        serializer.serialize_str(self.",
    );
    out.append(to_name);
    out.append("())\n    }\n}\n");
    proof {
        assert(out@ =~= old(out)@ + serialize_impl(enum_ident@, to_name@));
    }
}

fn push_deserialize_impl(out: &mut String, enum_ident: &str, vs: &Vec<VariantConfig>)
    ensures
        final(out)@ == old(out)@ + deserialize_impl(enum_ident@, vs@),
{
    out.append("impl<'de> ::serde::Deserialize<'de> for ");
    out.append(enum_ident);
    out.append(
        " {\n    fn deserialize<D>(deserializer: D) -> ::core::result::Result<Self, D::Error>\n    where\n        D: ::serde::Deserializer<'de>,\n    {\n        #[allow(non_camel_case_types)]\n        #[derive(::serde::Deserialize)]\n        enum __impl_",
    );
    out.append(enum_ident);
    out.append(" {\n");
    proof {
        assert(out@ =~= old(out)@ + deserialize_open(enum_ident@));
    }
    let ghost pre_renames = out@;
    let mut i: usize = 0;
    while i < vs.len()
        invariant
            i <= vs@.len(),
            out@ == pre_renames + rename_arms(vs@.take(i as int)),
        decreases vs@.len() - i,
    {
        let v = &vs[i];
        out.append("            #[serde(rename = \"");
        let e = escape(v.text.as_str());
        out.append(e.as_str());
        out.append("\")]\n            ");
        out.append(v.ident.as_str());
        out.append(",\n");
        proof {
            assert(vs@.take(i as int + 1).drop_last() =~= vs@.take(i as int));
            assert(vs@.take(i as int + 1).last() == vs@[i as int]);
            assert(out@ =~= pre_renames + rename_arms(vs@.take(i as int + 1)));
        }
        i += 1;
    }
    proof {
        assert(vs@.take(vs@.len() as int) =~= vs@);
    }
    out.append("        }\n        let result = <__impl_");
    out.append(enum_ident);
    out.append(" as ::serde::Deserialize<'de>>::deserialize(deserializer)?;\n        Ok(match result {\n");
    proof {
        assert(out@ =~= pre_renames + rename_arms(vs@) + deserialize_mid(enum_ident@));
    }
    let ghost pre_maps = out@;
    let mut i: usize = 0;
    while i < vs.len()
        invariant
            i <= vs@.len(),
            out@ == pre_maps + map_arms(enum_ident@, vs@.take(i as int)),
        decreases vs@.len() - i,
    {
        let v = &vs[i];
        out.append("            __impl_");
        out.append(enum_ident);
        out.append("::");
        out.append(v.ident.as_str());
        out.append(" => ");
        out.append(enum_ident);
        out.append("::");
        out.append(v.ident.as_str());
        out.append(",\n");
        proof {
            assert(vs@.take(i as int + 1).drop_last() =~= vs@.take(i as int));
            assert(vs@.take(i as int + 1).last() == vs@[i as int]);
            assert(out@ =~= pre_maps + map_arms(enum_ident@, vs@.take(i as int + 1)));
        }
        i += 1;
    }
    proof {
        assert(vs@.take(vs@.len() as int) =~= vs@);
    }
    out.append("        })\n    }\n}\n");
    proof {
        assert(out@ =~= old(out)@ + deserialize_impl(enum_ident@, vs@));
    }
}

fn push_impl_block(
    out: &mut String,
    enum_ident: &str,
    from_name: &str,
    to_name: &str,
    vs: &Vec<VariantConfig>,
    cns: &Vec<String>,
)
    requires
        cns@.len() == vs@.len(),
        forall|k: int| 0 <= k < vs@.len() ==> (#[trigger] cns@[k])@ == spec_const_name(vs@[k]),
    ensures
        final(out)@ == old(out)@ + impl_block(enum_ident@, from_name@, to_name@, vs@),
{
    out.append("impl ");
    out.append(enum_ident);
    out.append(" {\n");
    let ghost pre_consts = out@;
    let mut i: usize = 0;
    while i < vs.len()
        invariant
            i <= vs@.len(),
            cns@.len() == vs@.len(),
            forall|k: int| 0 <= k < vs@.len() ==> (#[trigger] cns@[k])@ == spec_const_name(vs@[k]),
            out@ == pre_consts + const_decls(vs@.take(i as int)),
        decreases vs@.len() - i,
    {
        let v = &vs[i];
        out.append("    pub const ");
        out.append(cns[i].as_str());
        out.append(": &'static str = \"");
        let e = escape(v.text.as_str());
        out.append(e.as_str());
        out.append("\";\n");
        proof {
            assert(vs@.take(i as int + 1).drop_last() =~= vs@.take(i as int));
            assert(vs@.take(i as int + 1).last() == vs@[i as int]);
            assert(out@ =~= pre_consts + const_decls(vs@.take(i as int + 1)));
        }
        i += 1;
    }
    proof {
        assert(vs@.take(vs@.len() as int) =~= vs@);
    }
    out.append("    pub fn ");
    out.append(from_name);
    out.append(
        "(text: &impl ::core::convert::AsRef<str>) -> ::core::option::Option<Self> {\n        match <_ as ::core::convert::AsRef<str>>::as_ref(text) {\n",
    );
    proof {
        assert(out@ =~= pre_consts + const_decls(vs@) + from_fn_open(from_name@));
    }
    let ghost pre_from = out@;
    let mut i: usize = 0;
    while i < vs.len()
        invariant
            i <= vs@.len(),
            cns@.len() == vs@.len(),
            forall|k: int| 0 <= k < vs@.len() ==> (#[trigger] cns@[k])@ == spec_const_name(vs@[k]),
            out@ == pre_from + from_arms(vs@.take(i as int)),
        decreases vs@.len() - i,
    {
        let v = &vs[i];
        out.append("            Self::");
        out.append(cns[i].as_str());
        out.append(" => ::core::option::Option::Some(Self::");
        out.append(v.ident.as_str());
        out.append("),\n");
        proof {
            assert(vs@.take(i as int + 1).drop_last() =~= vs@.take(i as int));
            assert(vs@.take(i as int + 1).last() == vs@[i as int]);
            assert(out@ =~= pre_from + from_arms(vs@.take(i as int + 1)));
        }
        i += 1;
    }
    proof {
        assert(vs@.take(vs@.len() as int) =~= vs@);
    }
    out.append("            _ => ::core::option::Option::None,\n        }\n    }\n");
    out.append("    pub const fn ");
    out.append(to_name);
    out.append("(&self) -> &str {\n        match self {\n");
    proof {
        assert(out@ =~= pre_from + from_arms(vs@)
            + "            _ => ::core::option::Option::None,\n        }\n    }\n"@ + to_fn_open(
            to_name@,
        ));
    }
    let ghost pre_to = out@;
    let mut i: usize = 0;
    while i < vs.len()
        invariant
            i <= vs@.len(),
            cns@.len() == vs@.len(),
            forall|k: int| 0 <= k < vs@.len() ==> (#[trigger] cns@[k])@ == spec_const_name(vs@[k]),
            out@ == pre_to + to_arms(vs@.take(i as int)),
        decreases vs@.len() - i,
    {
        let v = &vs[i];
        out.append("            Self::");
        out.append(v.ident.as_str());
        out.append(" => Self::");
        out.append(cns[i].as_str());
        out.append(",\n");
        proof {
            assert(vs@.take(i as int + 1).drop_last() =~= vs@.take(i as int));
            assert(vs@.take(i as int + 1).last() == vs@[i as int]);
            assert(out@ =~= pre_to + to_arms(vs@.take(i as int + 1)));
        }
        i += 1;
    }
    proof {
        assert(vs@.take(vs@.len() as int) =~= vs@);
    }
    out.append("        }\n    }\n}\n");
    proof {
        assert(out@ =~= old(out)@ + impl_block(enum_ident@, from_name@, to_name@, vs@));
    }
}

/// Generates the source text for a configuration: the serialization
/// adapters where asked for, then the `impl` block with the string
/// constants and the two accessors.
///
/// Succeeds exactly on an enum all of whose names are well formed; rejects
/// any other shape of item, and the first ill-formed name, with a
/// diagnostic.
pub fn codegen(cfg: &Config) -> (r: Result<String, String>)
    ensures
        r is Ok <==> spec_ok(*cfg),
        r matches Ok(code) ==> code@ == spec_generated(*cfg),
        r matches Err(msg) ==> msg@ == spec_error(*cfg),
{
    let vs: &Vec<VariantConfig> = match &cfg.data {
        Data::Enum(vs) => vs,
        Data::Struct => {
            return Err(String::from_str("target must be an enum"));
        },
    };
    proof {
        assert(spec_variants(*cfg) == vs@);
    }
    if !check_ident(cfg.ident.as_str()) {
        return Err(invalid_ident_msg(cfg.ident.as_str()));
    }
    let from_name: &str = match &cfg.from {
        Some(n) => n.as_str(),
        None => "from_text",
    };
    let to_name: &str = match &cfg.to {
        Some(n) => n.as_str(),
        None => "text",
    };
    if !check_ident(from_name) {
        return Err(invalid_ident_msg(from_name));
    }
    if !check_ident(to_name) {
        return Err(invalid_ident_msg(to_name));
    }
    let cns: Vec<String> = match resolve_const_names(vs) {
        Ok(cns) => cns,
        Err(msg) => {
            return Err(msg);
        },
    };
    let mut out = String::new();
    if cfg.serde {
        push_serialize_impl(&mut out, cfg.ident.as_str(), to_name);
        push_deserialize_impl(&mut out, cfg.ident.as_str(), vs);
    }
    push_impl_block(&mut out, cfg.ident.as_str(), from_name, to_name, vs, &cns);
    proof {
        assert(out@ =~= spec_generated(*cfg));
    }
    Ok(out)
}

} // verus!
