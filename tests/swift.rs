use codegen_v2::grammar::{
    GFunctionDecl, GKeyword, GMarker, GMarkers, GParamItem, GPrimitive, GReturnValue, GType,
    GTypeCategory,
};
use codegen_v2::swift::{from_grammar, get_method_name, get_type_str, is_nullable, strip_symbol_prefix};
use codegen_v2::Error;

fn kw(s: &str) -> GKeyword {
    GKeyword(s.to_string())
}

fn ptr_to(name: &str) -> GType {
    GType::Mutable(GTypeCategory::Pointer(Box::new(GTypeCategory::Unrecognized(kw(name)))))
}

fn uint8() -> GType {
    GType::Mutable(GTypeCategory::Scalar(GPrimitive::UInt8T))
}

fn markers(ms: &[GMarker]) -> GMarkers {
    GMarkers(ms.to_vec())
}

fn param(name: &str, ty: GType, ms: &[GMarker]) -> GParamItem {
    GParamItem { name: kw(name), ty, markers: markers(ms) }
}

fn decl(name: &str, params: Vec<GParamItem>, ret: GType, ret_markers: &[GMarker], ms: &[GMarker]) -> GFunctionDecl {
    GFunctionDecl {
        name: kw(name),
        params,
        return_value: GReturnValue { ty: ret, markers: markers(ret_markers) },
        markers: markers(ms),
    }
}

#[test]
fn uint8_maps_to_plain_value() {
    let ctx = get_type_str(&uint8()).unwrap();
    assert_eq!(ctx.name, "int");
    assert_eq!(ctx.ty, "UInt8");
    assert_eq!(ctx.wrap_as, None);
    assert_eq!(ctx.deter_as, None);
}

#[test]
fn string_handle_maps_to_string() {
    let ctx = get_type_str(&ptr_to("TWString")).unwrap();
    assert_eq!(ctx.name, "string");
    assert_eq!(ctx.ty, "String");
    assert_eq!(ctx.wrap_as.as_deref(), Some("TWStringCreateWithNSString(string)"));
    assert_eq!(ctx.deter_as.as_deref(), Some("StringDelete(string)"));
}

#[test]
fn data_handle_maps_to_data() {
    let ctx = get_type_str(&ptr_to("TWData")).unwrap();
    assert_eq!(ctx.name, "data");
    assert_eq!(ctx.ty, "Data");
    assert_eq!(ctx.wrap_as.as_deref(), Some("TWDataCreateWithNSData(data)"));
    assert_eq!(ctx.deter_as.as_deref(), Some("TWDataDelete(data)"));
}

#[test]
fn other_shapes_are_unsupported() {
    let cases = vec![
        GType::Const(GTypeCategory::Scalar(GPrimitive::UInt8T)),
        GType::Mutable(GTypeCategory::Scalar(GPrimitive::Int32T)),
        GType::Mutable(GTypeCategory::Scalar(GPrimitive::UInt16T)),
        ptr_to("TWUnknownThing"),
        ptr_to("TWStrin"),
        ptr_to(""),
        GType::Const(GTypeCategory::Pointer(Box::new(GTypeCategory::Unrecognized(kw("TWString"))))),
        GType::Mutable(GTypeCategory::Unrecognized(kw("TWString"))),
        GType::Mutable(GTypeCategory::Pointer(Box::new(GTypeCategory::Scalar(GPrimitive::UInt8T)))),
        GType::Mutable(GTypeCategory::Pointer(Box::new(GTypeCategory::Pointer(Box::new(
            GTypeCategory::Unrecognized(kw("TWString")),
        ))))),
    ];
    for t in &cases {
        assert_eq!(get_type_str(t).err(), Some(Error::UnsupportedType));
    }
}

#[test]
fn method_name_lowercases_first_char_only() {
    let name = get_method_name(&kw("TW"), &kw("TWFooBarDoThing")).unwrap();
    assert_eq!(name, "fooBarDoThing");
}

#[test]
fn method_name_keeps_lowercase_start() {
    assert_eq!(get_method_name(&kw("TW"), &kw("TWx")).unwrap(), "x");
    assert_eq!(get_method_name(&kw("TW"), &kw("TWaBC")).unwrap(), "aBC");
}

#[test]
fn method_name_prefix_mismatch() {
    assert_eq!(get_method_name(&kw("TW"), &kw("XYFoo")).err(), Some(Error::PrefixMismatch));
    assert_eq!(get_method_name(&kw("TW"), &kw("T")).err(), Some(Error::PrefixMismatch));
    assert_eq!(get_method_name(&kw("TW"), &kw("")).err(), Some(Error::PrefixMismatch));
}

#[test]
fn method_name_empty_after_prefix() {
    assert_eq!(get_method_name(&kw("TW"), &kw("TW")).err(), Some(Error::EmptyName));
    assert_eq!(get_method_name(&kw(""), &kw("")).err(), Some(Error::EmptyName));
}

#[test]
fn strip_splits_first_char() {
    let (c, rest) = strip_symbol_prefix(&kw("TW"), &kw("TWFooBar")).unwrap();
    assert_eq!(c, 'F');
    assert_eq!(rest, vec!['o', 'o', 'B', 'a', 'r']);
    let (c, rest) = strip_symbol_prefix(&kw("TW"), &kw("TWQ")).unwrap();
    assert_eq!(c, 'Q');
    assert!(rest.is_empty());
}

#[test]
fn nullability_policy() {
    assert!(is_nullable(&markers(&[])));
    assert!(is_nullable(&markers(&[GMarker::Nullable])));
    assert!(!is_nullable(&markers(&[GMarker::NonNull])));
    assert!(is_nullable(&markers(&[GMarker::NonNull, GMarker::Nullable])));
    assert!(is_nullable(&markers(&[GMarker::Nullable, GMarker::NonNull])));
    assert!(is_nullable(&markers(&[GMarker::TwExportMethod])));
    assert!(!is_nullable(&markers(&[GMarker::TwExportMethod, GMarker::NonNull])));
}

#[test]
fn end_to_end_create() {
    let d = decl("TWFooCreate", vec![], ptr_to("TWString"), &[], &[]);
    let f = from_grammar(&kw("TW"), &d).unwrap();
    assert_eq!(f.method_name, "fooCreate");
    assert!(!f.is_static);
    assert!(f.params.is_empty());
    assert!(f.return_info.is_nullable);
    assert_eq!(f.return_info.return_type, "String");
    assert_eq!(f.return_info.wrap_as.as_deref(), Some("TWStringCreateWithNSString(string)"));
    assert_eq!(f.c_ffi_name, "TWFooCreate");
}

#[test]
fn end_to_end_unknown_return_type() {
    let d = decl("TWFooCreate", vec![], ptr_to("TWUnknownThing"), &[], &[]);
    assert_eq!(from_grammar(&kw("TW"), &d).err(), Some(Error::UnsupportedType));
}

#[test]
fn params_keep_declaration_order() {
    let d = decl(
        "TWFooDoThing",
        vec![
            param("data", ptr_to("TWData"), &[GMarker::NonNull]),
            param("value", uint8(), &[]),
            param("text", ptr_to("TWString"), &[GMarker::NonNull, GMarker::Nullable]),
            param("value2", uint8(), &[GMarker::NonNull]),
        ],
        uint8(),
        &[GMarker::NonNull],
        &[GMarker::TwExportMethod],
    );
    let f = from_grammar(&kw("TW"), &d).unwrap();
    assert_eq!(f.method_name, "fooDoThing");
    assert!(f.is_static);
    assert_eq!(f.c_ffi_name, "TWFooDoThing");
    let names: Vec<&str> = f.params.iter().map(|p| p.name.as_str()).collect();
    assert_eq!(names, vec!["data", "int", "string", "int"]);
    let types: Vec<&str> = f.params.iter().map(|p| p.param_type.as_str()).collect();
    assert_eq!(types, vec!["Data", "UInt8", "String", "UInt8"]);
    let nullable: Vec<bool> = f.params.iter().map(|p| p.is_nullable).collect();
    assert_eq!(nullable, vec![false, true, true, false]);
    assert_eq!(f.params[0].deter_as.as_deref(), Some("TWDataDelete(data)"));
    assert_eq!(f.params[1].wrap_as, None);
    assert!(!f.return_info.is_nullable);
    assert_eq!(f.return_info.return_type, "UInt8");
    assert_eq!(f.return_info.wrap_as, None);
}

#[test]
fn static_method_marker_only_on_declaration() {
    let d = decl("TWFooGet", vec![param("v", uint8(), &[GMarker::TwExportMethod])], uint8(), &[], &[GMarker::TwExportStaticMethod]);
    let f = from_grammar(&kw("TW"), &d).unwrap();
    assert!(!f.is_static);
}

#[test]
fn unsupported_param_aborts() {
    let d = decl(
        "TWFooSet",
        vec![param("a", uint8(), &[]), param("b", GType::Mutable(GTypeCategory::Scalar(GPrimitive::Bool)), &[])],
        uint8(),
        &[],
        &[],
    );
    assert_eq!(from_grammar(&kw("TW"), &d).err(), Some(Error::UnsupportedType));
}

#[test]
fn name_error_comes_first() {
    let d = decl("XYFoo", vec![], ptr_to("TWUnknownThing"), &[], &[]);
    assert_eq!(from_grammar(&kw("TW"), &d).err(), Some(Error::PrefixMismatch));
    let d = decl("TW", vec![], uint8(), &[], &[]);
    assert_eq!(from_grammar(&kw("TW"), &d).err(), Some(Error::EmptyName));
}
