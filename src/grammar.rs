use vstd::prelude::*;

verus! {

/// An identifier as it appears in a native header.
#[derive(Debug)]
pub struct GKeyword(pub String);

/// Scalar primitives of the native type grammar.
#[derive(Clone, Copy, Debug, PartialEq, Eq, Structural)]
pub enum GPrimitive {
    Void,
    Bool,
    Char,
    ShortInt,
    Int,
    UnsignedInt,
    LongInt,
    SizeT,
    Int8T,
    Int16T,
    Int32T,
    Int64T,
    UInt8T,
    UInt16T,
    UInt32T,
    UInt64T,
}

/// What a type refers to, before qualifiers.
#[derive(Debug)]
pub enum GTypeCategory {
    Scalar(GPrimitive),
    Pointer(Box<GTypeCategory>),
    /// A keyword the grammar does not know, most often an opaque struct name.
    Unrecognized(GKeyword),
}

/// A type together with its qualifier.
#[derive(Debug)]
pub enum GType {
    Mutable(GTypeCategory),
    Const(GTypeCategory),
}

/// Annotations attached to a declaration, a parameter or a return slot.
#[derive(Clone, Copy, Debug, PartialEq, Eq, Structural)]
pub enum GMarker {
    TwExportStruct,
    TwExportEnum,
    TwExportClass,
    TwExportMethod,
    TwExportStaticMethod,
    TwExportProperty,
    TwExportStaticProperty,
    NonNull,
    Nullable,
}

/// An unordered collection of markers.
#[derive(Debug)]
pub struct GMarkers(pub Vec<GMarker>);

/// One parameter of a native function.
#[derive(Debug)]
pub struct GParamItem {
    pub name: GKeyword,
    pub ty: GType,
    pub markers: GMarkers,
}

/// The return slot of a native function.
#[derive(Debug)]
pub struct GReturnValue {
    pub ty: GType,
    pub markers: GMarkers,
}

/// One exported native function.
#[derive(Debug)]
pub struct GFunctionDecl {
    pub name: GKeyword,
    pub params: Vec<GParamItem>,
    pub return_value: GReturnValue,
    pub markers: GMarkers,
}

impl GMarkers {
    /// Whether `m` is among the markers.
    pub open spec fn has(self, m: GMarker) -> bool {
        self.0@.contains(m)
    }
}

} // verus!
