use vstd::prelude::*;

verus! {

/// A database object handle: the identity of an object inside a drawing.
#[derive(Clone, Copy, Debug, PartialEq, Eq, Structural, Hash)]
pub struct Handle {
    pub value: u64,
}

impl Handle {
    /// Create a handle from its numeric value.
    pub fn new(value: u64) -> (h: Handle)
        ensures
            h.value == value,
    {
        Handle { value }
    }

    /// The null handle, which refers to no object.
    pub fn null() -> (h: Handle)
        ensures
            h.value == 0,
    {
        Handle { value: 0 }
    }

    /// Numeric value of the handle.
    pub fn value(&self) -> (v: u64)
        ensures
            v == self.value,
    {
        self.value
    }

    /// Whether the handle is null.
    pub fn is_null(&self) -> (b: bool)
        ensures
            b == (self.value == 0),
    {
        self.value == 0
    }
}


/// How an object-id entry refers to its target in the DWG handle stream.
#[derive(Clone, Copy, Debug, PartialEq, Eq, Structural)]
pub enum ProxyReferenceKind {
    SoftPointer,
    HardPointer,
    SoftOwnership,
    HardOwnership,
    Undefined,
}

/// One entry of an object-id handle stream: the target and how it is referenced.
#[derive(Clone, Copy, Debug, PartialEq, Eq, Structural)]
pub struct ProxyObjectReference {
    pub handle: Handle,
    pub kind: ProxyReferenceKind,
}

/// Drawing database format versions.
#[derive(Clone, Copy, Debug, PartialEq, Eq, Structural)]
pub enum DxfVersion {
    Unknown,
    AC1009,
    AC1012,
    AC1014,
    AC1015,
    AC1018,
    AC1021,
    AC1024,
    AC1027,
    AC1032,
}

/// Name of a version as it is written in a drawing header.
pub open spec fn version_name(v: DxfVersion) -> Seq<char> {
    match v {
        DxfVersion::Unknown => "Unknown"@,
        DxfVersion::AC1009 => "AC1009"@,
        DxfVersion::AC1012 => "AC1012"@,
        DxfVersion::AC1014 => "AC1014"@,
        DxfVersion::AC1015 => "AC1015"@,
        DxfVersion::AC1018 => "AC1018"@,
        DxfVersion::AC1021 => "AC1021"@,
        DxfVersion::AC1024 => "AC1024"@,
        DxfVersion::AC1027 => "AC1027"@,
        DxfVersion::AC1032 => "AC1032"@,
    }
}

impl DxfVersion {
    /// Name of the version as it is written in a drawing header.
    pub fn name(&self) -> (r: String)
        ensures
            r@ == version_name(*self),
    {
        match self {
            DxfVersion::Unknown => "Unknown".to_owned(),
            DxfVersion::AC1009 => "AC1009".to_owned(),
            DxfVersion::AC1012 => "AC1012".to_owned(),
            DxfVersion::AC1014 => "AC1014".to_owned(),
            DxfVersion::AC1015 => "AC1015".to_owned(),
            DxfVersion::AC1018 => "AC1018".to_owned(),
            DxfVersion::AC1021 => "AC1021".to_owned(),
            DxfVersion::AC1024 => "AC1024".to_owned(),
            DxfVersion::AC1027 => "AC1027".to_owned(),
            DxfVersion::AC1032 => "AC1032".to_owned(),
        }
    }
}

/// A 3D vector whose components are IEEE-754 binary64 values held as their bit patterns.
#[derive(Clone, Copy, Debug, PartialEq, Eq, Structural)]
pub struct Vector3 {
    pub x: u64,
    pub y: u64,
    pub z: u64,
}

impl Vector3 {
    /// Build a vector from the bit patterns of its three components.
    pub fn new(x: u64, y: u64, z: u64) -> (v: Vector3)
        ensures
            v.x == x,
            v.y == y,
            v.z == z,
    {
        Vector3 { x, y, z }
    }
}

/// A 2D vector whose components are IEEE-754 binary64 values held as their bit patterns.
#[derive(Clone, Copy, Debug, PartialEq, Eq, Structural)]
pub struct Vector2 {
    pub x: u64,
    pub y: u64,
}

impl Vector2 {
    /// Build a vector from the bit patterns of its two components.
    pub fn new(x: u64, y: u64) -> (v: Vector2)
        ensures
            v.x == x,
            v.y == y,
    {
        Vector2 { x, y }
    }
}

/// Whether a binary64 bit pattern denotes a finite number (neither infinite nor NaN):
/// its eleven exponent bits are not all set.
pub open spec fn bits_finite(bits: u64) -> bool {
    (bits >> 52u64) & 0x7ffu64 != 0x7ffu64
}

/// Finiteness test on a binary64 bit pattern.
pub fn is_finite_bits(bits: u64) -> (b: bool)
    ensures
        b == bits_finite(bits),
{
    (bits >> 52u64) & 0x7ffu64 != 0x7ffu64
}

/// Each version is written in a drawing header under its own AutoCAD
/// release code (`AC1009` for R12 up to `AC1032` for 2018), and a version
/// the library does not know as `Unknown`.
pub proof fn law_version_names()
    ensures
        version_name(DxfVersion::AC1009) == "AC1009"@,
        version_name(DxfVersion::AC1012) == "AC1012"@,
        version_name(DxfVersion::AC1014) == "AC1014"@,
        version_name(DxfVersion::AC1015) == "AC1015"@,
        version_name(DxfVersion::AC1018) == "AC1018"@,
        version_name(DxfVersion::AC1021) == "AC1021"@,
        version_name(DxfVersion::AC1024) == "AC1024"@,
        version_name(DxfVersion::AC1027) == "AC1027"@,
        version_name(DxfVersion::AC1032) == "AC1032"@,
        version_name(DxfVersion::Unknown) == "Unknown"@,
{
}

} // verus!
