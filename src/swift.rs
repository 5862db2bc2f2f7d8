use vstd::prelude::*;
use vstd::string::StringExecFns;

use crate::error::{Error, Result};
use crate::grammar::{GFunctionDecl, GKeyword, GMarker, GMarkers, GParamItem, GPrimitive, GReturnValue, GType, GTypeCategory};
use crate::text::{chars_of, lower_of, lowercase_char, push_char};

verus! {

/// The host type that a supported native type maps to.
#[derive(Clone, Copy, Debug, PartialEq, Eq, Structural)]
pub enum HostKind {
    /// An unsigned 8-bit integer, passed by value.
    Numeric,
    /// A native string handle, seen as a Swift `String`.
    Text,
    /// A native data handle, seen as a Swift `Data`.
    Bytes,
}

/// A resolved parameter or return type.
#[derive(Debug)]
pub struct SwiftTypeContext {
    pub name: String,
    pub ty: String,
    pub wrap_as: Option<String>,
    pub deter_as: Option<String>,
}

/// One parameter of the generated method.
#[derive(Debug)]
pub struct SwiftParam {
    pub name: String,
    pub param_type: String,
    pub is_nullable: bool,
    pub wrap_as: Option<String>,
    pub deter_as: Option<String>,
}

/// The return value of the generated method.
#[derive(Debug)]
pub struct SwiftReturn {
    pub return_type: String,
    pub is_nullable: bool,
    pub wrap_as: Option<String>,
}

/// Everything the method template needs for one native function.
#[derive(Debug)]
pub struct SwiftFunction {
    pub method_name: String,
    pub is_static: bool,
    pub return_info: SwiftReturn,
    pub params: Vec<SwiftParam>,
    pub c_ffi_name: String,
}

/// The text of an optional string.
pub open spec fn opt_view(o: Option<String>) -> Option<Seq<char>> {
    match o {
        Some(s) => Some(s@),
        None => None,
    }
}

/// The opaque struct name of a native string handle.
pub open spec fn string_handle_keyword() -> Seq<char> {
    "TWString"@
}

/// The opaque struct name of a native data handle.
pub open spec fn data_handle_keyword() -> Seq<char> {
    "TWData"@
}

/// The supported shapes: a mutable `uint8_t`, and a mutable pointer to the
/// opaque string or data handle. Every other type has no mapping.
pub open spec fn classify(t: GType) -> Option<HostKind> {
    match t {
        GType::Mutable(GTypeCategory::Scalar(GPrimitive::UInt8T)) => Some(HostKind::Numeric),
        GType::Mutable(GTypeCategory::Pointer(b)) => match *b {
            GTypeCategory::Unrecognized(k) => if k.0@ == string_handle_keyword() {
                Some(HostKind::Text)
            } else if k.0@ == data_handle_keyword() {
                Some(HostKind::Bytes)
            } else {
                None
            },
            _ => None,
        },
        _ => None,
    }
}

/// The conventional label of a value of this kind.
pub open spec fn role_name(k: HostKind) -> Seq<char> {
    match k {
        HostKind::Numeric => "int"@,
        HostKind::Text => "string"@,
        HostKind::Bytes => "data"@,
    }
}

/// The Swift type of a value of this kind.
pub open spec fn host_type(k: HostKind) -> Seq<char> {
    match k {
        HostKind::Numeric => "UInt8"@,
        HostKind::Text => "String"@,
        HostKind::Bytes => "Data"@,
    }
}

/// The expression that builds the native value from the Swift one.
pub open spec fn wrap_expr(k: HostKind) -> Option<Seq<char>> {
    match k {
        HostKind::Numeric => None,
        HostKind::Text => Some("TWStringCreateWithNSString(string)"@),
        HostKind::Bytes => Some("TWDataCreateWithNSData(data)"@),
    }
}

/// The expression that releases the native value.
pub open spec fn deter_expr(k: HostKind) -> Option<Seq<char>> {
    match k {
        HostKind::Numeric => None,
        HostKind::Text => Some("StringDelete(string)"@),
        HostKind::Bytes => Some("TWDataDelete(data)"@),
    }
}

impl SwiftTypeContext {
    /// This context is the mapping of a value of kind `k`.
    pub open spec fn is_context_of(self, k: HostKind) -> bool {
        &&& self.name@ == role_name(k)
        &&& self.ty@ == host_type(k)
        &&& opt_view(self.wrap_as) == wrap_expr(k)
        &&& opt_view(self.deter_as) == deter_expr(k)
    }
}

/// The context of a value of kind `k`.
fn context_of(k: HostKind) -> (r: SwiftTypeContext)
    ensures
        r.is_context_of(k),
{
    match k {
        HostKind::Numeric => SwiftTypeContext {
            name: String::from_str("int"),
            ty: String::from_str("UInt8"),
            wrap_as: None,
            deter_as: None,
        },
        HostKind::Text => SwiftTypeContext {
            name: String::from_str("string"),
            ty: String::from_str("String"),
            wrap_as: Some(String::from_str("TWStringCreateWithNSString(string)")),
            deter_as: Some(String::from_str("StringDelete(string)")),
        },
        HostKind::Bytes => SwiftTypeContext {
            name: String::from_str("data"),
            ty: String::from_str("Data"),
            wrap_as: Some(String::from_str("TWDataCreateWithNSData(data)")),
            deter_as: Some(String::from_str("TWDataDelete(data)")),
        },
    }
}

/// Whether `k` spells `lit`.
fn keyword_is(k: &GKeyword, lit: &str) -> (r: bool)
    ensures
        r == (k.0@ == lit@),
{
    let s = lit.to_owned();
    k.0 == s
}

/// Which supported shape `gty` has, if any.
fn classify_type(gty: &GType) -> (r: Option<HostKind>)
    ensures
        r == classify(*gty),
{
    match gty {
        GType::Mutable(GTypeCategory::Scalar(GPrimitive::UInt8T)) => Some(HostKind::Numeric),
        GType::Mutable(GTypeCategory::Pointer(boxed)) => match &**boxed {
            GTypeCategory::Unrecognized(keyword) => {
                if keyword_is(keyword, "TWString") {
                    Some(HostKind::Text)
                } else if keyword_is(keyword, "TWData") {
                    Some(HostKind::Bytes)
                } else {
                    None
                }
            },
            _ => None,
        },
        _ => None,
    }
}

/// Converts a native type into the Swift type that represents it, with the
/// expressions that build and release the native value. Only the shapes of
/// `classify` are supported; any other type is an error.
pub fn get_type_str(gty: &GType) -> (r: Result<SwiftTypeContext>)
    ensures
        match classify(*gty) {
            Some(k) => r is Ok && r->Ok_0.is_context_of(k),
            None => r == Err::<SwiftTypeContext, Error>(Error::UnsupportedType),
        },
        *gty == GType::Mutable(GTypeCategory::Scalar(GPrimitive::UInt8T)) ==> {
            &&& r is Ok
            &&& r->Ok_0.ty@ == "UInt8"@
            &&& r->Ok_0.wrap_as is None
            &&& r->Ok_0.deter_as is None
        },
        classify(*gty) == Some(HostKind::Text) ==> {
            &&& r is Ok
            &&& r->Ok_0.ty@ == "String"@
            &&& r->Ok_0.wrap_as is Some
            &&& r->Ok_0.deter_as is Some
        },
        classify(*gty) == Some(HostKind::Bytes) ==> {
            &&& r is Ok
            &&& r->Ok_0.ty@ == "Data"@
            &&& r->Ok_0.wrap_as is Some
            &&& r->Ok_0.deter_as is Some
        },
{
    match classify_type(gty) {
        Some(k) => Ok(context_of(k)),
        None => Err(Error::UnsupportedType),
    }
}

/// Nullable unless marked non-null; an explicit nullable marker wins over a
/// non-null one.
pub open spec fn nullable_spec(markers: GMarkers) -> bool {
    !markers.has(GMarker::NonNull) || markers.has(GMarker::Nullable)
}

/// Whether `m` is among `markers`.
fn has_marker(markers: &GMarkers, m: GMarker) -> (r: bool)
    ensures
        r == markers.has(m),
{
    let mut i: usize = 0;
    while i < markers.0.len()
        invariant
            i <= markers.0.len(),
            forall|j: int| 0 <= j < i ==> markers.0@[j] != m,
        decreases markers.0.len() - i,
    {
        if markers.0[i] == m {
            assert(markers.0@[i as int] == m);
            return true;
        }
        i = i + 1;
    }
    false
}

/// Whether a value with these markers may be absent.
pub fn is_nullable(markers: &GMarkers) -> (r: bool)
    ensures
        r == nullable_spec(*markers),
        markers.0@.len() == 0 ==> r,
        !r <==> (markers.has(GMarker::NonNull) && !markers.has(GMarker::Nullable)),
{
    !has_marker(markers, GMarker::NonNull) || has_marker(markers, GMarker::Nullable)
}

/// What remains of `name` once `prefix` is removed, as its first character
/// and the characters after it.
pub open spec fn strip_spec(prefix: Seq<char>, name: Seq<char>) -> Result<(char, Seq<char>)> {
    if !prefix.is_prefix_of(name) {
        Err(Error::PrefixMismatch)
    } else if name.len() == prefix.len() {
        Err(Error::EmptyName)
    } else {
        Ok((name[prefix.len() as int], name.skip(prefix.len() + 1int)))
    }
}

/// The exposed name for `name` under `prefix`: the prefix is removed and the
/// first remaining character is lowercased; the rest is kept as it is.
pub open spec fn method_name_spec(prefix: Seq<char>, name: Seq<char>) -> Result<Seq<char>> {
    match strip_spec(prefix, name) {
        Ok((first, rest)) => Ok(lower_of(first) + rest),
        Err(e) => Err(e),
    }
}

/// Removes `prefix` from the start of `keyword` and splits off the first
/// character of what remains.
pub fn strip_symbol_prefix(prefix: &GKeyword, keyword: &GKeyword) -> (r: Result<(char, Vec<char>)>)
    ensures
        match strip_spec(prefix.0@, keyword.0@) {
            Ok((c, rest)) => r is Ok && r->Ok_0.0 == c && r->Ok_0.1@ == rest,
            Err(e) => r == Err::<(char, Vec<char>), Error>(e),
        },
{
    let p = chars_of(prefix.0.as_str());
    let n = chars_of(keyword.0.as_str());
    if n.len() < p.len() {
        return Err(Error::PrefixMismatch);
    }
    let mut i: usize = 0;
    while i < p.len()
        invariant
            i <= p.len() <= n.len(),
            p@ == prefix.0@,
            n@ == keyword.0@,
            p@.take(i as int) == n@.take(i as int),
        decreases p.len() - i,
    {
        if p[i] != n[i] {
            assert(p@[i as int] != n@.take(p.len() as int)[i as int]);
            return Err(Error::PrefixMismatch);
        }
        assert(p@.take(i + 1) =~= p@.take(i as int).push(p@[i as int]));
        assert(n@.take(i + 1) =~= n@.take(i as int).push(n@[i as int]));
        i = i + 1;
    }
    assert(p@ =~= p@.take(p.len() as int));
    if n.len() == p.len() {
        return Err(Error::EmptyName);
    }
    let first = n[p.len()];
    let mut rest: Vec<char> = Vec::new();
    let mut j: usize = p.len() + 1;
    while j < n.len()
        invariant
            p.len() + 1 <= j <= n.len(),
            rest@ == n@.subrange(p.len() + 1, j as int),
        decreases n.len() - j,
    {
        rest.push(n[j]);
        j = j + 1;
    }
    assert(rest@ =~= n@.skip(p.len() + 1));
    Ok((first, rest))
}

/// Derives the exposed method name from a native symbol and the module prefix.
pub fn get_method_name(prefix: &GKeyword, keyword: &GKeyword) -> (r: Result<String>)
    ensures
        match method_name_spec(prefix.0@, keyword.0@) {
            Ok(m) => r is Ok && r->Ok_0@ == m,
            Err(e) => r == Err::<String, Error>(e),
        },
        !prefix.0@.is_prefix_of(keyword.0@) ==> r == Err::<String, Error>(Error::PrefixMismatch),
        keyword.0@ == prefix.0@ ==> r == Err::<String, Error>(Error::EmptyName),
{
    match strip_symbol_prefix(prefix, keyword) {
        Err(e) => Err(e),
        Ok((first, rest)) => {
            let mut name = lowercase_char(first);
            let ghost start = name@;
            let mut j: usize = 0;
            while j < rest.len()
                invariant
                    j <= rest.len(),
                    name@ == start + rest@.take(j as int),
                decreases rest.len() - j,
            {
                push_char(&mut name, rest[j]);
                assert(rest@.take(j + 1) =~= rest@.take(j as int).push(rest@[j as int]));
                j = j + 1;
            }
            assert(rest@.take(rest.len() as int) =~= rest@);
            Ok(name)
        },
    }
}

impl SwiftParam {
    /// This descriptor is the mapping of the native parameter `g`.
    pub open spec fn describes(self, g: GParamItem) -> bool {
        match classify(g.ty) {
            Some(k) => {
                &&& self.name@ == role_name(k)
                &&& self.param_type@ == host_type(k)
                &&& self.is_nullable == nullable_spec(g.markers)
                &&& opt_view(self.wrap_as) == wrap_expr(k)
                &&& opt_view(self.deter_as) == deter_expr(k)
            },
            None => false,
        }
    }
}

impl SwiftReturn {
    /// This descriptor is the mapping of the native return slot `g`.
    pub open spec fn describes(self, g: GReturnValue) -> bool {
        match classify(g.ty) {
            Some(k) => {
                &&& self.return_type@ == host_type(k)
                &&& self.is_nullable == nullable_spec(g.markers)
                &&& opt_view(self.wrap_as) == wrap_expr(k)
            },
            None => false,
        }
    }
}

/// Every parameter has a supported type.
pub open spec fn params_supported(ps: Seq<GParamItem>) -> bool {
    forall|i: int| 0 <= i < ps.len() ==> (#[trigger] classify(ps[i].ty)) is Some
}

/// The error that maps `decl` fails with, if any: a name error comes first,
/// then an unsupported parameter or return type.
pub open spec fn decl_error(prefix: GKeyword, decl: GFunctionDecl) -> Option<Error> {
    match method_name_spec(prefix.0@, decl.name.0@) {
        Err(e) => Some(e),
        Ok(_) => if params_supported(decl.params@) && classify(decl.return_value.ty) is Some {
            None
        } else {
            Some(Error::UnsupportedType)
        },
    }
}

impl SwiftFunction {
    /// This descriptor is the mapping of `decl` under `prefix`.
    pub open spec fn describes(self, prefix: GKeyword, decl: GFunctionDecl) -> bool {
        &&& method_name_spec(prefix.0@, decl.name.0@) == Ok::<Seq<char>, Error>(self.method_name@)
        &&& self.is_static == decl.markers.has(GMarker::TwExportMethod)
        &&& self.return_info.describes(decl.return_value)
        &&& self.params.len() == decl.params.len()
        &&& forall|i: int| 0 <= i < self.params.len() ==> (#[trigger] self.params[i]).describes(decl.params[i])
        &&& self.c_ffi_name@ == decl.name.0@
    }
}

/// Maps one native function declaration to a method descriptor, or fails
/// with the first error met; no partial descriptor is returned.
pub fn from_grammar(prefix: &GKeyword, decl: &GFunctionDecl) -> (r: Result<SwiftFunction>)
    ensures
        match decl_error(*prefix, *decl) {
            Some(e) => r == Err::<SwiftFunction, Error>(e),
            None => r is Ok && r->Ok_0.describes(*prefix, *decl),
        },
        classify(decl.return_value.ty) is None ==> r is Err,
        !params_supported(decl.params@) ==> r is Err,
{
    let method_name = match get_method_name(prefix, &decl.name) {
        Ok(m) => m,
        Err(e) => return Err(e),
    };
    let c_ffi_name = decl.name.0.clone();
    let is_static = has_marker(&decl.markers, GMarker::TwExportMethod);

    let mut params: Vec<SwiftParam> = Vec::new();
    let mut i: usize = 0;
    while i < decl.params.len()
        invariant
            i <= decl.params.len(),
            params.len() == i,
            method_name_spec(prefix.0@, decl.name.0@) == Ok::<Seq<char>, Error>(method_name@),
            forall|j: int| 0 <= j < i ==> (#[trigger] params[j]).describes(decl.params[j]),
        decreases decl.params.len() - i,
    {
        let param = &decl.params[i];
        let ctx = match get_type_str(&param.ty) {
            Ok(c) => c,
            Err(e) => {
                assert(classify(decl.params@[i as int].ty) is None);
                return Err(e);
            },
        };
        let is_nullable = is_nullable(&param.markers);
        params.push(SwiftParam {
            name: ctx.name,
            param_type: ctx.ty,
            is_nullable,
            wrap_as: ctx.wrap_as,
            deter_as: ctx.deter_as,
        });
        i = i + 1;
    }
    assert(params_supported(decl.params@)) by {
        assert forall|j: int| 0 <= j < decl.params@.len() implies (#[trigger] classify(decl.params@[j].ty)) is Some by {
            assert(params[j].describes(decl.params[j]));
        }
    }

    let is_nullable = is_nullable(&decl.return_value.markers);
    let ctx = match get_type_str(&decl.return_value.ty) {
        Ok(c) => c,
        Err(e) => return Err(e),
    };

    Ok(SwiftFunction {
        method_name,
        is_static,
        return_info: SwiftReturn { return_type: ctx.ty, is_nullable, wrap_as: ctx.wrap_as },
        params,
        c_ffi_name,
    })
}

} // verus!
