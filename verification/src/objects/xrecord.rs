use vstd::prelude::*;
use crate::text::{eq_ci, eq_ignore_ascii_case, opens, trim_open, closes, ends_with_close, starts_with_open,
    trim_open_braces, closes_section, open_marker, close_marker};
use crate::types::{Handle, ProxyObjectReference, ProxyReferenceKind, DxfVersion, Vector3};

verus! {

/// Dictionary cloning behavior flags.
#[derive(Debug, Clone, Copy, PartialEq, Eq, Structural)]
pub enum DictionaryCloningFlags {
    /// Not applicable
    NotApplicable,
    /// Keep existing record
    KeepExisting,
    /// Use clone
    UseClone,
    /// XRef name-based cloning
    XrefName,
    /// Name-based cloning
    Name,
    /// Unmangle name
    UnmangleName,
}

/// DXF value of a cloning flag.
pub open spec fn cloning_flag_value(f: DictionaryCloningFlags) -> i16 {
    match f {
        DictionaryCloningFlags::NotApplicable => 0,
        DictionaryCloningFlags::KeepExisting => 1,
        DictionaryCloningFlags::UseClone => 2,
        DictionaryCloningFlags::XrefName => 3,
        DictionaryCloningFlags::Name => 4,
        DictionaryCloningFlags::UnmangleName => 5,
    }
}

impl Default for DictionaryCloningFlags {
    fn default() -> (f: Self)
        ensures
            f == DictionaryCloningFlags::NotApplicable,
    {
        DictionaryCloningFlags::NotApplicable
    }
}

impl DictionaryCloningFlags {
    /// Create from a DXF value; values outside 1..=5 mean "not applicable".
    pub fn from_value(value: i16) -> (f: Self)
        ensures
            1 <= value <= 5 ==> cloning_flag_value(f) == value,
            !(1 <= value <= 5) ==> f == DictionaryCloningFlags::NotApplicable,
    {
        match value {
            1 => DictionaryCloningFlags::KeepExisting,
            2 => DictionaryCloningFlags::UseClone,
            3 => DictionaryCloningFlags::XrefName,
            4 => DictionaryCloningFlags::Name,
            5 => DictionaryCloningFlags::UnmangleName,
            _ => DictionaryCloningFlags::NotApplicable,
        }
    }

    /// Convert to DXF value.
    pub fn to_value(&self) -> (v: i16)
        ensures
            v == cloning_flag_value(*self),
    {
        match self {
            DictionaryCloningFlags::NotApplicable => 0,
            DictionaryCloningFlags::KeepExisting => 1,
            DictionaryCloningFlags::UseClone => 2,
            DictionaryCloningFlags::XrefName => 3,
            DictionaryCloningFlags::Name => 4,
            DictionaryCloningFlags::UnmangleName => 5,
        }
    }

    /// Convert to DXF code (alias for `to_value`).
    pub fn to_code(&self) -> (v: i16)
        ensures
            v == cloning_flag_value(*self),
    {
        self.to_value()
    }
}

/// Every cloning flag survives conversion to its DXF value and back.
pub proof fn law_cloning_flags_roundtrip(f: DictionaryCloningFlags)
    ensures
        0 <= cloning_flag_value(f) <= 5,
        cloning_flag_value(f) != 0 ==> 1 <= cloning_flag_value(f) <= 5,
        f == DictionaryCloningFlags::NotApplicable <==> cloning_flag_value(f) == 0,
        forall|g: DictionaryCloningFlags| cloning_flag_value(g) == cloning_flag_value(f) ==> g == f,
{
}

/// Group code value type.
#[derive(Debug, Clone, Copy, PartialEq, Eq, Structural)]
pub enum XRecordValueType {
    /// String value
    String,
    /// 3D point
    Point3D,
    /// Double value
    Double,
    /// Byte value
    Byte,
    /// 16-bit integer
    Int16,
    /// 32-bit integer
    Int32,
    /// 64-bit integer
    Int64,
    /// Handle value
    Handle,
    /// Object ID (handle reference)
    ObjectId,
    /// Boolean value
    Bool,
    /// Binary chunk
    Chunk,
    /// Unknown type
    Unknown,
}

/// Value type that the DXF group-code table assigns to a code.
pub open spec fn code_value_type(code: i32) -> XRecordValueType {
    if code < 0 {
        XRecordValueType::Handle
    } else if code == 5 || code == 105 || (320 <= code <= 329) || (480 <= code <= 481) {
        XRecordValueType::Handle
    } else if 330 <= code <= 369 {
        XRecordValueType::ObjectId
    } else if (390 <= code <= 399) || code == 1005 {
        XRecordValueType::Handle
    } else if (0 <= code <= 4) || (6 <= code <= 9) || (100 <= code <= 102) || (300 <= code <= 309)
        || (410 <= code <= 419) || (430 <= code <= 439) || (470 <= code <= 479) || code == 999
        || (1000 <= code <= 1003) {
        XRecordValueType::String
    } else if (10 <= code <= 37) || (110 <= code <= 139) || (210 <= code <= 269) || (1010 <= code
        <= 1039) || (1043 <= code <= 1069) {
        XRecordValueType::Point3D
    } else if (38 <= code <= 59) || (140 <= code <= 149) || (460 <= code <= 469) || (1040 <= code
        <= 1042) {
        XRecordValueType::Double
    } else if 280 <= code <= 289 {
        XRecordValueType::Byte
    } else if (60 <= code <= 79) || (170 <= code <= 179) || (270 <= code <= 279) || (370 <= code
        <= 389) || (400 <= code <= 409) || code == 1070 {
        XRecordValueType::Int16
    } else if (80 <= code <= 99) || (420 <= code <= 429) || (440 <= code <= 459) || code == 1071 {
        XRecordValueType::Int32
    } else if 150 <= code <= 169 {
        XRecordValueType::Int64
    } else if 290 <= code <= 299 {
        XRecordValueType::Bool
    } else if (310 <= code <= 319) || code == 1004 {
        XRecordValueType::Chunk
    } else {
        XRecordValueType::Unknown
    }
}

/// Whether a value type denotes a reference to another object.
pub open spec fn value_type_is_handle(t: XRecordValueType) -> bool {
    t == XRecordValueType::Handle || t == XRecordValueType::ObjectId
}

impl XRecordValueType {
    /// Determine value type from DXF group code.
    pub fn from_code(code: i32) -> (t: Self)
        ensures
            t == code_value_type(code),
    {
        if code < 0 {
            XRecordValueType::Handle
        } else if code == 5 || code == 105 || (320 <= code && code <= 329) || (480 <= code && code <= 481) {
            XRecordValueType::Handle
        } else if 330 <= code && code <= 369 {
            XRecordValueType::ObjectId
        } else if (390 <= code && code <= 399) || code == 1005 {
            XRecordValueType::Handle
        } else if (0 <= code && code <= 4) || (6 <= code && code <= 9) || (100 <= code && code <= 102)
            || (300 <= code && code <= 309) || (410 <= code && code <= 419) || (430 <= code && code <= 439)
            || (470 <= code && code <= 479) || code == 999 || (1000 <= code && code <= 1003) {
            XRecordValueType::String
        } else if (10 <= code && code <= 37) || (110 <= code && code <= 139) || (210 <= code && code <= 269)
            || (1010 <= code && code <= 1039) || (1043 <= code && code <= 1069) {
            XRecordValueType::Point3D
        } else if (38 <= code && code <= 59) || (140 <= code && code <= 149) || (460 <= code && code <= 469)
            || (1040 <= code && code <= 1042) {
            XRecordValueType::Double
        } else if 280 <= code && code <= 289 {
            XRecordValueType::Byte
        } else if (60 <= code && code <= 79) || (170 <= code && code <= 179) || (270 <= code && code <= 279)
            || (370 <= code && code <= 389) || (400 <= code && code <= 409) || code == 1070 {
            XRecordValueType::Int16
        } else if (80 <= code && code <= 99) || (420 <= code && code <= 429) || (440 <= code && code <= 459)
            || code == 1071 {
            XRecordValueType::Int32
        } else if 150 <= code && code <= 169 {
            XRecordValueType::Int64
        } else if 290 <= code && code <= 299 {
            XRecordValueType::Bool
        } else if (310 <= code && code <= 319) || code == 1004 {
            XRecordValueType::Chunk
        } else {
            XRecordValueType::Unknown
        }
    }

    /// Check if this type represents a handle/reference.
    pub fn is_handle(&self) -> (b: bool)
        ensures
            b == value_type_is_handle(*self),
    {
        match self {
            XRecordValueType::Handle | XRecordValueType::ObjectId => true,
            _ => false,
        }
    }
}

/// Well-known application schemas stored in an XRecord.
///
/// The payload always remains available through `XRecord::entries`. This
/// classification only adds a stable, typed access path for schemas used by
/// AutoCAD and Autodesk vertical products; unknown/private schemas are kept
/// losslessly as ordinary group-code/value pairs.
#[derive(Debug, Clone, Copy, PartialEq, Eq, Structural)]
pub enum KnownXRecordKind {
    LayerViewportAlphaOverride,
    LayerViewportColorOverride,
    LayerViewportLinetypeOverride,
    LayerViewportLineweightOverride,
    LayerReconciled,
    LayerStateAnnotationScale,
    AnnotationScale,
    MeshTextureCoordinates,
    XrecordRoundTrip,
    MTextRoundTrip,
    HeaderRoundTrip,
    RecomposeData,
    DynamicBlockHistory,
    LayoutThumbnail,
    ViewTransition,
    PhotometricLight,
    LastSavedVersion,
    PreviousProductInfo,
    DrawingProperties,
    FingerprintGuid,
    DimensionStyleData,
    UcsData,
    PlotData,
    Hyperlink,
    AdvancedMaterial,
    MaterialAsset,
    Metadata,
    Unknown,
}

/// Classification of a dictionary key: its schema when the key names a known
/// one (ASCII case ignored), otherwise `Unknown`.
pub open spec fn known_kind_of(name: Seq<char>) -> KnownXRecordKind {
    if eq_ci(name, "ADSK_XREC_LAYER_ALPHA_OVR"@) {
        KnownXRecordKind::LayerViewportAlphaOverride
    } else if eq_ci(name, "ADSK_XREC_LAYER_COLOR_OVR"@) {
        KnownXRecordKind::LayerViewportColorOverride
    } else if eq_ci(name, "ADSK_XREC_LAYER_LINETYPE_OVR"@) {
        KnownXRecordKind::LayerViewportLinetypeOverride
    } else if eq_ci(name, "ADSK_XREC_LAYER_LINEWT_OVR"@) {
        KnownXRecordKind::LayerViewportLineweightOverride
    } else if eq_ci(name, "ADSK_XREC_LAYER_RECONCILED"@) {
        KnownXRecordKind::LayerReconciled
    } else if eq_ci(name, "ACADLAYERSTATEANNOSCALE"@) {
        KnownXRecordKind::LayerStateAnnotationScale
    } else if eq_ci(name, "ASDK_XREC_ANNOTATION_SCALE_INFO"@) || eq_ci(name, "ASDK_XREC_ANNO_SCALE_INFO"@) || eq_ci(name, "ADSK_XREC_VTR_ANNOSCALE_DATA"@) {
        KnownXRecordKind::AnnotationScale
    } else if eq_ci(name, "ADSK_XREC_SUBDVERTEXTEXCOORDS"@) {
        KnownXRecordKind::MeshTextureCoordinates
    } else if eq_ci(name, "ACAD_XREC_ROUNDTRIP"@) {
        KnownXRecordKind::XrecordRoundTrip
    } else if eq_ci(name, "ACAD_MTEXT_RT"@) || eq_ci(name, "ACAD_MTEXT_2008_RT"@) {
        KnownXRecordKind::MTextRoundTrip
    } else if eq_ci(name, "ACDBHEADERROUNDTRIPXREC"@) || eq_ci(name, "AUXHDRRNDTRIPDATA"@) {
        KnownXRecordKind::HeaderRoundTrip
    } else if eq_ci(name, "ACDB_RECOMPOSE_DATA"@) {
        KnownXRecordKind::RecomposeData
    } else if eq_ci(name, "ACAD_ENHANCEDBLOCKHISTORY"@) {
        KnownXRecordKind::DynamicBlockHistory
    } else if eq_ci(name, "ASEBLOCKHIERARCHYINDEXRECORD"@) {
        KnownXRecordKind::DynamicBlockHistory
    } else if eq_ci(name, "ADSK_XREC_LAYOUTTHUMBNAIL"@) {
        KnownXRecordKind::LayoutThumbnail
    } else if eq_ci(name, "ADSK_XREC_VTRANIMATIONINFO"@) || eq_ci(name, "ADSK_XREC_VTRTHUMBNAIL"@) || eq_ci(name, "ADSK_XREC_VTRVIEWINFO"@) {
        KnownXRecordKind::ViewTransition
    } else if eq_ci(name, "ADSK_XREC_PHOTOMETRICLIGHTINFO"@) || eq_ci(name, "LIGHTINGQUALITY"@) {
        KnownXRecordKind::PhotometricLight
    } else if eq_ci(name, "ACAD_LAST_SAVED_VERSION_INFO"@) {
        KnownXRecordKind::LastSavedVersion
    } else if eq_ci(name, "ACAD_CIP_PREVIOUS_PRODUCT_INFO"@) {
        KnownXRecordKind::PreviousProductInfo
    } else if eq_ci(name, "DWGPROPS"@) {
        KnownXRecordKind::DrawingProperties
    } else if eq_ci(name, "FINGERPRINTGUID"@) {
        KnownXRecordKind::FingerprintGuid
    } else if eq_ci(name, "ACADDIM"@) || eq_ci(name, "DIMSTYLEDATA"@) || eq_ci(name, "DIMLTEX1"@) || eq_ci(name, "DIMLTEX2"@) || eq_ci(name, "DIMLTYPE"@) || eq_ci(name, "TSTACKALIGN"@) || eq_ci(name, "TSTACKSIZE"@) {
        KnownXRecordKind::DimensionStyleData
    } else if eq_ci(name, "PUCSBASE"@) || eq_ci(name, "PUCSORGBACK"@) || eq_ci(name, "PUCSORGBOTTOM"@) || eq_ci(name, "PUCSORGFRONT"@) || eq_ci(name, "PUCSORGLEFT"@) || eq_ci(name, "PUCSORGRIGHT"@) || eq_ci(name, "PUCSORGTOP"@) || eq_ci(name, "PUCSORTHOREF"@) || eq_ci(name, "PUCSORTHOVIEW"@) || eq_ci(name, "UCSBASE"@) || eq_ci(name, "UCSORGBACK"@) || eq_ci(name, "UCSORGBOTTOM"@) || eq_ci(name, "UCSORGFRONT"@) || eq_ci(name, "UCSORGLEFT"@) || eq_ci(name, "UCSORGRIGHT"@) || eq_ci(name, "UCSORGTOP"@) || eq_ci(name, "UCSORTHOREF"@) || eq_ci(name, "UCSORTHOVIEW"@) {
        KnownXRecordKind::UcsData
    } else if eq_ci(name, "ACAD_LAYOUTSELFREF"@) || eq_ci(name, "LAYOUTDICT"@) || eq_ci(name, "PLOTSETDICT"@) || eq_ci(name, "PLOTSTYLNAMDICT"@) || eq_ci(name, "PSVPSCALE"@) || eq_ci(name, "STYLESHEET"@) {
        KnownXRecordKind::PlotData
    } else if eq_ci(name, "HYPERLINKBASE"@) {
        KnownXRecordKind::Hyperlink
    } else if eq_ci(name, "ADVMATERIAL"@) {
        KnownXRecordKind::AdvancedMaterial
    } else if eq_ci(name, "FBXASSET"@) || eq_ci(name, "BUMPTILE"@) || eq_ci(name, "DIFFUSETILE"@) || eq_ci(name, "OPACITYTILE"@) || eq_ci(name, "REFLECTIONTILE"@) || eq_ci(name, "REFRACTIONTILE"@) || eq_ci(name, "SPECULARTILE"@) || eq_ci(name, "BUMP"@) || eq_ci(name, "DIFFUSE"@) || eq_ci(name, "MATERIALDICT"@) || eq_ci(name, "VIZ XML MATERIAL DEFINITION"@) {
        KnownXRecordKind::MaterialAsset
    } else if eq_ci(name, "ACAD_MLATT"@) || eq_ci(name, "ACAD_VIEWS_VIEW_CUSTOM"@) || eq_ci(name, "AECDEPRECATIONHISTORY"@) || eq_ci(name, "CEPSNID"@) || eq_ci(name, "CEPSNTYPE"@) || eq_ci(name, "COLORDICT"@) || eq_ci(name, "INSUNITS"@) || eq_ci(name, "LWETCUNION"@) || eq_ci(name, "MCS_DOCUMENT_ID"@) || eq_ci(name, "MCS_PARAMS_DATA"@) || eq_ci(name, "MC_VERSION_DATA"@) || eq_ci(name, "VERSIONGUID"@) {
        KnownXRecordKind::Metadata
    } else {
        KnownXRecordKind::Unknown
    }
}

impl KnownXRecordKind {
    /// Classify an XRecord dictionary key without changing its payload.
    pub fn from_name(name: &str) -> (k: Self)
        ensures
            k == known_kind_of(name@),
    {
        if eq_ignore_ascii_case(name, "ADSK_XREC_LAYER_ALPHA_OVR") {
            KnownXRecordKind::LayerViewportAlphaOverride
        } else if eq_ignore_ascii_case(name, "ADSK_XREC_LAYER_COLOR_OVR") {
            KnownXRecordKind::LayerViewportColorOverride
        } else if eq_ignore_ascii_case(name, "ADSK_XREC_LAYER_LINETYPE_OVR") {
            KnownXRecordKind::LayerViewportLinetypeOverride
        } else if eq_ignore_ascii_case(name, "ADSK_XREC_LAYER_LINEWT_OVR") {
            KnownXRecordKind::LayerViewportLineweightOverride
        } else if eq_ignore_ascii_case(name, "ADSK_XREC_LAYER_RECONCILED") {
            KnownXRecordKind::LayerReconciled
        } else if eq_ignore_ascii_case(name, "ACADLAYERSTATEANNOSCALE") {
            KnownXRecordKind::LayerStateAnnotationScale
        } else if eq_ignore_ascii_case(name, "ASDK_XREC_ANNOTATION_SCALE_INFO") || eq_ignore_ascii_case(name, "ASDK_XREC_ANNO_SCALE_INFO") || eq_ignore_ascii_case(name, "ADSK_XREC_VTR_ANNOSCALE_DATA") {
            KnownXRecordKind::AnnotationScale
        } else if eq_ignore_ascii_case(name, "ADSK_XREC_SUBDVERTEXTEXCOORDS") {
            KnownXRecordKind::MeshTextureCoordinates
        } else if eq_ignore_ascii_case(name, "ACAD_XREC_ROUNDTRIP") {
            KnownXRecordKind::XrecordRoundTrip
        } else if eq_ignore_ascii_case(name, "ACAD_MTEXT_RT") || eq_ignore_ascii_case(name, "ACAD_MTEXT_2008_RT") {
            KnownXRecordKind::MTextRoundTrip
        } else if eq_ignore_ascii_case(name, "ACDBHEADERROUNDTRIPXREC") || eq_ignore_ascii_case(name, "AUXHDRRNDTRIPDATA") {
            KnownXRecordKind::HeaderRoundTrip
        } else if eq_ignore_ascii_case(name, "ACDB_RECOMPOSE_DATA") {
            KnownXRecordKind::RecomposeData
        } else if eq_ignore_ascii_case(name, "ACAD_ENHANCEDBLOCKHISTORY") {
            KnownXRecordKind::DynamicBlockHistory
        } else if eq_ignore_ascii_case(name, "ASEBLOCKHIERARCHYINDEXRECORD") {
            KnownXRecordKind::DynamicBlockHistory
        } else if eq_ignore_ascii_case(name, "ADSK_XREC_LAYOUTTHUMBNAIL") {
            KnownXRecordKind::LayoutThumbnail
        } else if eq_ignore_ascii_case(name, "ADSK_XREC_VTRANIMATIONINFO") || eq_ignore_ascii_case(name, "ADSK_XREC_VTRTHUMBNAIL") || eq_ignore_ascii_case(name, "ADSK_XREC_VTRVIEWINFO") {
            KnownXRecordKind::ViewTransition
        } else if eq_ignore_ascii_case(name, "ADSK_XREC_PHOTOMETRICLIGHTINFO") || eq_ignore_ascii_case(name, "LIGHTINGQUALITY") {
            KnownXRecordKind::PhotometricLight
        } else if eq_ignore_ascii_case(name, "ACAD_LAST_SAVED_VERSION_INFO") {
            KnownXRecordKind::LastSavedVersion
        } else if eq_ignore_ascii_case(name, "ACAD_CIP_PREVIOUS_PRODUCT_INFO") {
            KnownXRecordKind::PreviousProductInfo
        } else if eq_ignore_ascii_case(name, "DWGPROPS") {
            KnownXRecordKind::DrawingProperties
        } else if eq_ignore_ascii_case(name, "FINGERPRINTGUID") {
            KnownXRecordKind::FingerprintGuid
        } else if eq_ignore_ascii_case(name, "ACADDIM") || eq_ignore_ascii_case(name, "DIMSTYLEDATA") || eq_ignore_ascii_case(name, "DIMLTEX1") || eq_ignore_ascii_case(name, "DIMLTEX2") || eq_ignore_ascii_case(name, "DIMLTYPE") || eq_ignore_ascii_case(name, "TSTACKALIGN") || eq_ignore_ascii_case(name, "TSTACKSIZE") {
            KnownXRecordKind::DimensionStyleData
        } else if eq_ignore_ascii_case(name, "PUCSBASE") || eq_ignore_ascii_case(name, "PUCSORGBACK") || eq_ignore_ascii_case(name, "PUCSORGBOTTOM") || eq_ignore_ascii_case(name, "PUCSORGFRONT") || eq_ignore_ascii_case(name, "PUCSORGLEFT") || eq_ignore_ascii_case(name, "PUCSORGRIGHT") || eq_ignore_ascii_case(name, "PUCSORGTOP") || eq_ignore_ascii_case(name, "PUCSORTHOREF") || eq_ignore_ascii_case(name, "PUCSORTHOVIEW") || eq_ignore_ascii_case(name, "UCSBASE") || eq_ignore_ascii_case(name, "UCSORGBACK") || eq_ignore_ascii_case(name, "UCSORGBOTTOM") || eq_ignore_ascii_case(name, "UCSORGFRONT") || eq_ignore_ascii_case(name, "UCSORGLEFT") || eq_ignore_ascii_case(name, "UCSORGRIGHT") || eq_ignore_ascii_case(name, "UCSORGTOP") || eq_ignore_ascii_case(name, "UCSORTHOREF") || eq_ignore_ascii_case(name, "UCSORTHOVIEW") {
            KnownXRecordKind::UcsData
        } else if eq_ignore_ascii_case(name, "ACAD_LAYOUTSELFREF") || eq_ignore_ascii_case(name, "LAYOUTDICT") || eq_ignore_ascii_case(name, "PLOTSETDICT") || eq_ignore_ascii_case(name, "PLOTSTYLNAMDICT") || eq_ignore_ascii_case(name, "PSVPSCALE") || eq_ignore_ascii_case(name, "STYLESHEET") {
            KnownXRecordKind::PlotData
        } else if eq_ignore_ascii_case(name, "HYPERLINKBASE") {
            KnownXRecordKind::Hyperlink
        } else if eq_ignore_ascii_case(name, "ADVMATERIAL") {
            KnownXRecordKind::AdvancedMaterial
        } else if eq_ignore_ascii_case(name, "FBXASSET") || eq_ignore_ascii_case(name, "BUMPTILE") || eq_ignore_ascii_case(name, "DIFFUSETILE") || eq_ignore_ascii_case(name, "OPACITYTILE") || eq_ignore_ascii_case(name, "REFLECTIONTILE") || eq_ignore_ascii_case(name, "REFRACTIONTILE") || eq_ignore_ascii_case(name, "SPECULARTILE") || eq_ignore_ascii_case(name, "BUMP") || eq_ignore_ascii_case(name, "DIFFUSE") || eq_ignore_ascii_case(name, "MATERIALDICT") || eq_ignore_ascii_case(name, "VIZ XML MATERIAL DEFINITION") {
            KnownXRecordKind::MaterialAsset
        } else if eq_ignore_ascii_case(name, "ACAD_MLATT") || eq_ignore_ascii_case(name, "ACAD_VIEWS_VIEW_CUSTOM") || eq_ignore_ascii_case(name, "AECDEPRECATIONHISTORY") || eq_ignore_ascii_case(name, "CEPSNID") || eq_ignore_ascii_case(name, "CEPSNTYPE") || eq_ignore_ascii_case(name, "COLORDICT") || eq_ignore_ascii_case(name, "INSUNITS") || eq_ignore_ascii_case(name, "LWETCUNION") || eq_ignore_ascii_case(name, "MCS_DOCUMENT_ID") || eq_ignore_ascii_case(name, "MCS_PARAMS_DATA") || eq_ignore_ascii_case(name, "MC_VERSION_DATA") || eq_ignore_ascii_case(name, "VERSIONGUID") {
            KnownXRecordKind::Metadata
        } else {
            KnownXRecordKind::Unknown
        }
    }
}


/// XRecord entry value. Floating-point values are held as their IEEE-754
/// binary64 bit patterns.
#[derive(Debug, Clone, PartialEq)]
pub enum XRecordValue {
    /// String value
    String(String),
    /// Double value (bit pattern)
    Double(u64),
    /// 16-bit integer
    Int16(i16),
    /// 32-bit integer
    Int32(i32),
    /// 64-bit integer
    Int64(i64),
    /// Byte value
    Byte(u8),
    /// Boolean value
    Bool(bool),
    /// Handle/Object reference
    Handle(Handle),
    /// 3D point (x, y, z bit patterns)
    Point3D(u64, u64, u64),
    /// Binary data chunk
    Chunk(Vec<u8>),
}

/// Mathematical model of an XRecord value.
pub enum ValueModel {
    Str(Seq<char>),
    Double(u64),
    Int16(i16),
    Int32(i32),
    Int64(i64),
    Byte(u8),
    Bool(bool),
    Handle(Handle),
    Point3D(u64, u64, u64),
    Chunk(Seq<u8>),
}

impl View for XRecordValue {
    type V = ValueModel;

    open spec fn view(&self) -> ValueModel {
        match self {
            XRecordValue::String(s) => ValueModel::Str(s@),
            XRecordValue::Double(v) => ValueModel::Double(*v),
            XRecordValue::Int16(v) => ValueModel::Int16(*v),
            XRecordValue::Int32(v) => ValueModel::Int32(*v),
            XRecordValue::Int64(v) => ValueModel::Int64(*v),
            XRecordValue::Byte(v) => ValueModel::Byte(*v),
            XRecordValue::Bool(v) => ValueModel::Bool(*v),
            XRecordValue::Handle(h) => ValueModel::Handle(*h),
            XRecordValue::Point3D(x, y, z) => ValueModel::Point3D(*x, *y, *z),
            XRecordValue::Chunk(b) => ValueModel::Chunk(b@),
        }
    }
}

/// Integer reading of a value: 32-bit, 16-bit and byte values widen to `i32`.
pub open spec fn model_as_i32(v: ValueModel) -> Option<i32> {
    match v {
        ValueModel::Int32(x) => Some(x),
        ValueModel::Int16(x) => Some(x as i32),
        ValueModel::Byte(x) => Some(x as i32),
        _ => None,
    }
}

/// Handle carried by a value, if it is a handle value.
pub open spec fn model_as_handle(v: ValueModel) -> Option<Handle> {
    match v {
        ValueModel::Handle(h) => Some(h),
        _ => None,
    }
}

/// Double carried by a value, if it is a double value.
pub open spec fn model_as_double(v: ValueModel) -> Option<u64> {
    match v {
        ValueModel::Double(x) => Some(x),
        _ => None,
    }
}

/// Copy of a byte vector.
pub(crate) fn copy_bytes(b: &Vec<u8>) -> (r: Vec<u8>)
    ensures
        r@ == b@,
{
    let mut r: Vec<u8> = Vec::new();
    let mut i: usize = 0;
    while i < b.len()
        invariant
            i <= b.len(),
            r@ == b@.subrange(0, i as int),
        decreases b.len() - i,
    {
        r.push(b[i]);
        i += 1;
    }
    assert(b@.subrange(0, b.len() as int) =~= b@);
    r
}

impl XRecordValue {
    /// A copy with the same model.
    pub fn copy(&self) -> (r: Self)
        ensures
            r@ == self@,
    {
        match self {
            XRecordValue::String(s) => XRecordValue::String(s.clone()),
            XRecordValue::Double(v) => XRecordValue::Double(*v),
            XRecordValue::Int16(v) => XRecordValue::Int16(*v),
            XRecordValue::Int32(v) => XRecordValue::Int32(*v),
            XRecordValue::Int64(v) => XRecordValue::Int64(*v),
            XRecordValue::Byte(v) => XRecordValue::Byte(*v),
            XRecordValue::Bool(v) => XRecordValue::Bool(*v),
            XRecordValue::Handle(h) => XRecordValue::Handle(*h),
            XRecordValue::Point3D(x, y, z) => XRecordValue::Point3D(*x, *y, *z),
            XRecordValue::Chunk(b) => XRecordValue::Chunk(copy_bytes(b)),
        }
    }

    /// Get as string if this is a string value.
    pub fn as_string(&self) -> (r: Option<&str>)
        ensures
            match self@ {
                ValueModel::Str(s) => r is Some && r->0@ == s,
                _ => r is None,
            },
    {
        match self {
            XRecordValue::String(s) => Some(s.as_str()),
            _ => None,
        }
    }

    /// Get as a double bit pattern if this is a double value.
    pub fn as_double(&self) -> (r: Option<u64>)
        ensures
            r == model_as_double(self@),
    {
        match self {
            XRecordValue::Double(v) => Some(*v),
            _ => None,
        }
    }

    /// Get as i32 if this is an integer value.
    pub fn as_i32(&self) -> (r: Option<i32>)
        ensures
            r == model_as_i32(self@),
    {
        match self {
            XRecordValue::Int32(v) => Some(*v),
            XRecordValue::Int16(v) => Some(*v as i32),
            XRecordValue::Byte(v) => Some(*v as i32),
            _ => None,
        }
    }

    /// Get as handle if this is a handle value.
    pub fn as_handle(&self) -> (r: Option<Handle>)
        ensures
            r == model_as_handle(self@),
    {
        match self {
            XRecordValue::Handle(h) => Some(*h),
            _ => None,
        }
    }

    /// Get as bool if this is a boolean value.
    pub fn as_bool(&self) -> (r: Option<bool>)
        ensures
            match self@ {
                ValueModel::Bool(b) => r == Some(b),
                _ => r is None,
            },
    {
        match self {
            XRecordValue::Bool(b) => Some(*b),
            _ => None,
        }
    }

    /// Get as 3D point bit patterns if this is a point value.
    pub fn as_point3d(&self) -> (r: Option<(u64, u64, u64)>)
        ensures
            match self@ {
                ValueModel::Point3D(x, y, z) => r == Some((x, y, z)),
                _ => r is None,
            },
    {
        match self {
            XRecordValue::Point3D(x, y, z) => Some((*x, *y, *z)),
            _ => None,
        }
    }
}

/// XRecord entry with group code and value.
#[derive(Debug, Clone, PartialEq)]
pub struct XRecordEntry {
    /// DXF group code (1-369, except 5 and 105)
    pub code: i32,
    /// The stored value
    pub value: XRecordValue,
}

/// Mathematical model of an XRecord entry.
pub struct EntryModel {
    pub code: i32,
    pub value: ValueModel,
}

impl View for XRecordEntry {
    type V = EntryModel;

    open spec fn view(&self) -> EntryModel {
        EntryModel { code: self.code, value: self.value@ }
    }
}

/// Models of a sequence of entries.
pub open spec fn entries_model(s: Seq<XRecordEntry>) -> Seq<EntryModel> {
    s.map_values(|e: XRecordEntry| e@)
}

impl XRecordEntry {
    /// Create a new entry.
    pub fn new(code: i32, value: XRecordValue) -> (e: Self)
        ensures
            e.code == code,
            e.value == value,
    {
        XRecordEntry { code, value }
    }

    /// Create a string entry.
    pub fn string(code: i32, value: &str) -> (e: Self)
        ensures
            e@ == (EntryModel { code, value: ValueModel::Str(value@) }),
    {
        XRecordEntry { code, value: XRecordValue::String(value.to_owned()) }
    }

    /// Create a double entry from a binary64 bit pattern.
    pub fn double(code: i32, value: u64) -> (e: Self)
        ensures
            e@ == (EntryModel { code, value: ValueModel::Double(value) }),
    {
        XRecordEntry { code, value: XRecordValue::Double(value) }
    }

    /// Create an i16 entry.
    pub fn int16(code: i32, value: i16) -> (e: Self)
        ensures
            e@ == (EntryModel { code, value: ValueModel::Int16(value) }),
    {
        XRecordEntry { code, value: XRecordValue::Int16(value) }
    }

    /// Create an i32 entry.
    pub fn int32(code: i32, value: i32) -> (e: Self)
        ensures
            e@ == (EntryModel { code, value: ValueModel::Int32(value) }),
    {
        XRecordEntry { code, value: XRecordValue::Int32(value) }
    }

    /// Create a handle entry.
    pub fn handle(code: i32, value: Handle) -> (e: Self)
        ensures
            e@ == (EntryModel { code, value: ValueModel::Handle(value) }),
    {
        XRecordEntry { code, value: XRecordValue::Handle(value) }
    }

    /// Create a bool entry.
    pub fn bool(code: i32, value: bool) -> (e: Self)
        ensures
            e@ == (EntryModel { code, value: ValueModel::Bool(value) }),
    {
        XRecordEntry { code, value: XRecordValue::Bool(value) }
    }

    /// Create a point entry from component bit patterns.
    pub fn point3d(x_code: i32, x: u64, y: u64, z: u64) -> (e: Self)
        ensures
            e@ == (EntryModel { code: x_code, value: ValueModel::Point3D(x, y, z) }),
    {
        XRecordEntry { code: x_code, value: XRecordValue::Point3D(x, y, z) }
    }

    /// A copy with the same model.
    pub fn copy(&self) -> (r: Self)
        ensures
            r@ == self@,
    {
        XRecordEntry { code: self.code, value: self.value.copy() }
    }

    /// Get the value type for this entry.
    pub fn value_type(&self) -> (t: XRecordValueType)
        ensures
            t == code_value_type(self.code),
    {
        XRecordValueType::from_code(self.code)
    }

    /// Check if this entry contains a linked object reference.
    pub fn has_linked_object(&self) -> (b: bool)
        ensures
            b == (self.value@ is Handle),
    {
        match self.value {
            XRecordValue::Handle(_) => true,
            _ => false,
        }
    }
}

/// Copy of a vector of entries.
pub(crate) fn copy_entries(s: &Vec<XRecordEntry>) -> (r: Vec<XRecordEntry>)
    ensures
        entries_model(r@) == entries_model(s@),
{
    let mut r: Vec<XRecordEntry> = Vec::new();
    let mut i: usize = 0;
    while i < s.len()
        invariant
            i <= s.len(),
            r@.len() == i,
            forall|j: int| 0 <= j < i ==> (#[trigger] r@[j])@ == s@[j]@,
        decreases s.len() - i,
    {
        r.push(s[i].copy());
        i += 1;
    }
    assert(entries_model(r@) =~= entries_model(s@));
    r
}


/// Whether a group code lies in the object-id range 330..=369.
pub open spec fn is_object_id_code(code: i32) -> bool {
    330 <= code <= 369
}

/// The `(code, handle)` pairs of object-id entries that carry a handle, in entry order.
pub open spec fn object_ids(es: Seq<EntryModel>) -> Seq<(i32, Handle)>
    decreases es.len(),
{
    if es.len() == 0 {
        Seq::empty()
    } else {
        let prev = object_ids(es.drop_last());
        let e = es.last();
        match model_as_handle(e.value) {
            Some(h) => if is_object_id_code(e.code) {
                prev.push((e.code, h))
            } else {
                prev
            },
            None => prev,
        }
    }
}

/// Reference kind that the DXF code range of an object-id entry denotes.
pub open spec fn default_reference_kind(code: i32) -> ProxyReferenceKind {
    if 330 <= code <= 339 {
        ProxyReferenceKind::SoftPointer
    } else if 340 <= code <= 349 {
        ProxyReferenceKind::HardPointer
    } else if 350 <= code <= 359 {
        ProxyReferenceKind::SoftOwnership
    } else if 360 <= code <= 369 {
        ProxyReferenceKind::HardOwnership
    } else {
        ProxyReferenceKind::Undefined
    }
}

/// The handle stream rebuilt from object-id pairs: each position keeps the
/// kind that `previous` had at that position, or else the kind its code denotes.
pub open spec fn synchronized_references(
    ids: Seq<(i32, Handle)>,
    previous: Seq<ProxyObjectReference>,
) -> Seq<ProxyObjectReference> {
    Seq::new(
        ids.len(),
        |i: int|
            ProxyObjectReference {
                handle: ids[i].1,
                kind: if i < previous.len() {
                    previous[i].kind
                } else {
                    default_reference_kind(ids[i].0)
                },
            },
    )
}

/// Index of the first entry at or after `k` with the given code (`es.len()` when none).
pub open spec fn first_code_from(es: Seq<EntryModel>, code: i32, k: int) -> int
    decreases es.len() - k,
{
    if k < 0 || k >= es.len() {
        es.len() as int
    } else if es[k].code == code {
        k
    } else {
        first_code_from(es, code, k + 1)
    }
}

/// Index of the first entry with the given code, if there is one.
pub open spec fn first_with_code(es: Seq<EntryModel>, code: i32) -> Option<int> {
    let k = first_code_from(es, code, 0);
    if k < es.len() {
        Some(k)
    } else {
        None
    }
}

/// What `first_code_from` finds: the first entry at or after `k` with the code.
pub proof fn lemma_first_code_from(es: Seq<EntryModel>, code: i32, k: int)
    requires
        0 <= k <= es.len(),
    ensures
        k <= first_code_from(es, code, k) <= es.len(),
        first_code_from(es, code, k) < es.len() ==> es[first_code_from(es, code, k)].code == code,
        forall|j: int| k <= j < first_code_from(es, code, k) ==> #[trigger] es[j].code != code,
    decreases es.len() - k,
{
    if k < es.len() && es[k].code != code {
        lemma_first_code_from(es, code, k + 1);
    }
}

/// The entries with the given code, in order.
pub open spec fn entries_with_code(es: Seq<EntryModel>, code: i32) -> Seq<EntryModel>
    decreases es.len(),
{
    if es.len() == 0 {
        Seq::empty()
    } else {
        let prev = entries_with_code(es.drop_last(), code);
        if es.last().code == code {
            prev.push(es.last())
        } else {
            prev
        }
    }
}

/// The string values of entries with the given code, in order.
pub open spec fn strings_with_code(es: Seq<EntryModel>, code: i32) -> Seq<Seq<char>>
    decreases es.len(),
{
    if es.len() == 0 {
        Seq::empty()
    } else {
        let prev = strings_with_code(es.drop_last(), code);
        match es.last().value {
            ValueModel::Str(t) => if es.last().code == code {
                prev.push(t)
            } else {
                prev
            },
            _ => prev,
        }
    }
}

/// The entries whose code lies outside `lo..=hi`, in order.
pub open spec fn without_codes(es: Seq<EntryModel>, lo: i32, hi: i32) -> Seq<EntryModel>
    decreases es.len(),
{
    if es.len() == 0 {
        Seq::empty()
    } else {
        let prev = without_codes(es.drop_last(), lo, hi);
        if lo <= es.last().code <= hi {
            prev
        } else {
            prev.push(es.last())
        }
    }
}

/// Handles are strictly increasing by value (so none occurs twice).
pub open spec fn strictly_increasing(v: Seq<Handle>) -> bool {
    forall|i: int, j: int| 0 <= i < j < v.len() ==> v[i].value < v[j].value
}

/// Strictly increasing sequences with the same elements are equal.
pub proof fn lemma_increasing_unique(a: Seq<Handle>, b: Seq<Handle>)
    requires
        strictly_increasing(a),
        strictly_increasing(b),
        forall|h: Handle| a.contains(h) <==> b.contains(h),
    ensures
        a == b,
    decreases a.len(),
{
    if a.len() == 0 {
        if b.len() > 0 {
            assert(b.contains(b[0]));
        }
        assert(a =~= b);
    } else {
        assert(a.contains(a[0]));
        assert(b.len() > 0);
        assert(b.contains(b[0]));
        let j = choose|j: int| 0 <= j < b.len() && b[j] == a[0];
        let i = choose|i: int| 0 <= i < a.len() && a[i] == b[0];
        if i > 0 {
            assert(a[0].value < a[i].value);
        }
        if j > 0 {
            assert(b[0].value < b[j].value);
        }
        assert(a[0] == b[0]);
        let ta = a.drop_first();
        let tb = b.drop_first();
        assert forall|h: Handle| ta.contains(h) <==> tb.contains(h) by {
            if ta.contains(h) {
                let k = choose|k: int| 0 <= k < ta.len() && ta[k] == h;
                assert(a[k + 1] == h);
                assert(a.contains(h));
                let m = choose|m: int| 0 <= m < b.len() && b[m] == h;
                if m == 0 {
                    assert(a[0].value < a[k + 1].value);
                }
                assert(tb[m - 1] == h);
            }
            if tb.contains(h) {
                let k = choose|k: int| 0 <= k < tb.len() && tb[k] == h;
                assert(b[k + 1] == h);
                assert(b.contains(h));
                let m = choose|m: int| 0 <= m < a.len() && a[m] == h;
                if m == 0 {
                    assert(b[0].value < b[k + 1].value);
                }
                assert(ta[m - 1] == h);
            }
        }
        lemma_increasing_unique(ta, tb);
        assert forall|k: int| 0 <= k < a.len() implies a[k] == b[k] by {
            if k > 0 {
                assert(a[k] == ta[k - 1]);
                assert(b[k] == tb[k - 1]);
            }
        }
        assert(a =~= b);
    }
}

/// A record refers to `h` through a handle-valued entry or its object-id stream.
pub open spec fn refers_to(r: XRecord, h: Handle) -> bool {
    (exists|i: int| 0 <= i < r.entries@.len() && model_as_handle(#[trigger] r.model()[i].value) == Some(h))
        || (exists|i: int| 0 <= i < r.object_references@.len() && (#[trigger] r.object_references@[i]).handle == h)
}

/// The handles a record refers to, ordered by value, each once.
pub open spec fn references_of(r: XRecord) -> Seq<Handle> {
    choose|s: Seq<Handle>| strictly_increasing(s) && forall|h: Handle| s.contains(h) <==> refers_to(r, h)
}

/// XRecord object - stores arbitrary extended data.
///
/// XRecords can store any DXF group code/value pairs and are commonly
/// used by applications to store custom data in DXF/DWG files.
#[derive(Debug, Clone, PartialEq)]
pub struct XRecord {
    /// Unique handle
    pub handle: Handle,
    /// Owner handle
    pub owner: Handle,
    /// Objects notified when this record changes.
    pub reactors: Vec<Handle>,
    /// Extension dictionary attached to this record.
    pub xdictionary_handle: Option<Handle>,
    /// Record name (optional, for named XRecords)
    pub name: String,
    /// Cloning behavior flags
    pub cloning_flags: DictionaryCloningFlags,
    /// Collection of data entries
    pub entries: Vec<XRecordEntry>,
    /// Object-id handle stream paired with 330-369 entries in DWG files.
    pub object_references: Vec<ProxyObjectReference>,
    /// Preserve the exact decoded DWG handle vector, including an intentionally
    /// empty vector. Cleared by typed mutation helpers so references are then
    /// regenerated from 330-369 entries.
    pub preserve_object_reference_stream: bool,
    /// Whether every byte in `raw_data` was decoded into `entries`.
    pub entries_complete: bool,
    /// Raw DWG data bytes (for roundtripping when entries are not parsed)
    pub raw_data: Vec<u8>,
    /// Original merged DWG object record for exact-version round-trips.
    pub raw_dwg_data: Option<Vec<u8>>,
    /// Handle-stream bit count stored alongside `raw_dwg_data`.
    pub raw_dwg_handle_bits: i64,
    /// DWG version that produced `raw_dwg_data`.
    pub raw_dwg_version: Option<DxfVersion>,
}

/// Copy of a list of values of a `Copy` type.
pub(crate) fn copy_vec<T: Copy>(v: &Vec<T>) -> (r: Vec<T>)
    ensures
        r@ == v@,
{
    let mut r: Vec<T> = Vec::new();
    let mut i: usize = 0;
    while i < v.len()
        invariant
            i <= v.len(),
            r@ == v@.take(i as int),
        decreases v.len() - i,
    {
        r.push(v[i]);
        i += 1;
        assert(r@ =~= v@.take(i as int));
    }
    assert(v@.take(v@.len() as int) =~= v@);
    r
}

impl XRecord {
    /// A copy with the same fields, entries and references.
    pub fn copy(&self) -> (r: Self)
        ensures
            r.handle == self.handle,
            r.owner == self.owner,
            r.xdictionary_handle == self.xdictionary_handle,
            r.name == self.name,
            r.cloning_flags == self.cloning_flags,
            r.preserve_object_reference_stream == self.preserve_object_reference_stream,
            r.entries_complete == self.entries_complete,
            r.raw_dwg_handle_bits == self.raw_dwg_handle_bits,
            r.raw_dwg_version == self.raw_dwg_version,
            r.model() == self.model(),
            r.object_references@ == self.object_references@,
            r.reactors@ == self.reactors@,
            r.raw_data@ == self.raw_data@,
            r.raw_dwg_data is Some == self.raw_dwg_data is Some,
            r.raw_dwg_data is Some ==> r.raw_dwg_data->0@ == self.raw_dwg_data->0@,
    {
        let raw_dwg_data = match &self.raw_dwg_data {
            Some(b) => Some(copy_bytes(b)),
            None => None,
        };
        XRecord {
            handle: self.handle,
            owner: self.owner,
            reactors: copy_vec(&self.reactors),
            xdictionary_handle: self.xdictionary_handle,
            name: self.name.clone(),
            cloning_flags: self.cloning_flags,
            entries: copy_entries(&self.entries),
            object_references: copy_vec(&self.object_references),
            preserve_object_reference_stream: self.preserve_object_reference_stream,
            entries_complete: self.entries_complete,
            raw_data: copy_bytes(&self.raw_data),
            raw_dwg_data,
            raw_dwg_handle_bits: self.raw_dwg_handle_bits,
            raw_dwg_version: self.raw_dwg_version,
        }
    }
}

/// The fields that no entry operation touches are equal in both records.
pub open spec fn same_identity(a: XRecord, b: XRecord) -> bool {
    &&& a.handle == b.handle
    &&& a.owner == b.owner
    &&& a.reactors == b.reactors
    &&& a.xdictionary_handle == b.xdictionary_handle
    &&& a.name == b.name
    &&& a.cloning_flags == b.cloning_flags
    &&& a.raw_data == b.raw_data
    &&& a.raw_dwg_data == b.raw_dwg_data
    &&& a.raw_dwg_handle_bits == b.raw_dwg_handle_bits
    &&& a.raw_dwg_version == b.raw_dwg_version
}

/// Insert a handle into a strictly increasing vector, keeping it so.
fn insert_sorted(v: &mut Vec<Handle>, h: Handle)
    requires
        strictly_increasing(old(v)@),
    ensures
        strictly_increasing(final(v)@),
        forall|x: Handle| final(v)@.contains(x) <==> (old(v)@.contains(x) || x == h),
{
    let mut p: usize = 0;
    while p < v.len() && v[p].value < h.value
        invariant
            p <= v.len(),
            forall|j: int| 0 <= j < p ==> v@[j].value < h.value,
        decreases v.len() - p,
    {
        p += 1;
    }
    if p < v.len() && v[p].value == h.value {
        assert(v@[p as int] == h);
        return;
    }
    let ghost before = v@;
    v.insert(p, h);
    assert(v@ == before.insert(p as int, h));
    assert forall|i: int, j: int| 0 <= i < j < v@.len() implies v@[i].value < v@[j].value by {
        if j < p {
        } else if j == p {
        } else if i < p {
        } else if i == p {
            assert(before[j - 1].value >= h.value);
            if p < before.len() && j - 1 > p {
                assert(before[p as int].value < before[j - 1].value);
            }
        } else {
        }
    }
    assert(v@.len() == before.len() + 1);
    assert(forall|k: int| 0 <= k < p ==> #[trigger] v@[k] == before[k]);
    assert(forall|k: int| p < k < v@.len() ==> #[trigger] v@[k] == before[k - 1]);
    assert(v@[p as int] == h);
    assert forall|x: Handle| before.contains(x) || x == h implies v@.contains(x) by {
        if x == h {
            assert(v@[p as int] == x);
        } else {
            let k = choose|k: int| 0 <= k < before.len() && before[k] == x;
            if k < p {
                assert(v@[k] == x);
            } else {
                assert(v@[k + 1] == x);
            }
        }
    }
    assert forall|x: Handle| v@.contains(x) implies before.contains(x) || x == h by {
        let k = choose|k: int| 0 <= k < v@.len() && v@[k] == x;
        if k < p {
            assert(before[k] == x);
        } else if k > p {
            assert(before[k - 1] == x);
        }
    }
}

impl XRecord {
    /// Models of the entries.
    pub open spec fn model(&self) -> Seq<EntryModel> {
        entries_model(self.entries@)
    }

    /// Create a new empty XRecord.
    pub fn new() -> (r: Self)
        ensures
            r.handle.value == 0,
            r.owner.value == 0,
            r.reactors@.len() == 0,
            r.xdictionary_handle is None,
            r.name@.len() == 0,
            r.cloning_flags == DictionaryCloningFlags::NotApplicable,
            r.entries@.len() == 0,
            r.object_references@.len() == 0,
            !r.preserve_object_reference_stream,
            r.entries_complete,
            r.raw_data@.len() == 0,
            r.raw_dwg_data is None,
            r.raw_dwg_handle_bits == 0,
            r.raw_dwg_version is None,
    {
        XRecord {
            handle: Handle::null(),
            owner: Handle::null(),
            reactors: Vec::new(),
            xdictionary_handle: None,
            name: String::new(),
            cloning_flags: DictionaryCloningFlags::NotApplicable,
            entries: Vec::new(),
            object_references: Vec::new(),
            preserve_object_reference_stream: false,
            entries_complete: true,
            raw_data: Vec::new(),
            raw_dwg_data: None,
            raw_dwg_handle_bits: 0,
            raw_dwg_version: None,
        }
    }

    /// Create a named XRecord.
    pub fn named(name: &str) -> (r: Self)
        ensures
            r.name@ == name@,
            r.handle.value == 0,
            r.owner.value == 0,
            r.reactors@.len() == 0,
            r.xdictionary_handle is None,
            r.cloning_flags == DictionaryCloningFlags::NotApplicable,
            r.entries@.len() == 0,
            r.object_references@.len() == 0,
            !r.preserve_object_reference_stream,
            r.entries_complete,
            r.raw_data@.len() == 0,
            r.raw_dwg_data is None,
            r.raw_dwg_handle_bits == 0,
            r.raw_dwg_version is None,
    {
        let mut r = XRecord::new();
        r.name = name.to_owned();
        r
    }

    /// Rebuild the DWG object-id handle vector from 330-369 entries while
    /// retaining decoded reference kinds where they still line up.
    pub fn synchronize_object_references(&mut self)
        ensures
            same_identity(*old(self), *final(self)),
            final(self).entries == old(self).entries,
            final(self).entries_complete == old(self).entries_complete,
            final(self).object_references@ == synchronized_references(
                object_ids(old(self).model()),
                old(self).object_references@,
            ),
            !final(self).preserve_object_reference_stream,
    {
        let ghost es = self.model();
        let ghost previous = self.object_references@;
        let mut refs: Vec<ProxyObjectReference> = Vec::new();
        let mut i: usize = 0;
        let n = self.entries.len();
        while i < n
            invariant
                n == self.entries@.len(),
                es == self.model(),
                previous == self.object_references@,
                i <= n,
                refs@ == synchronized_references(object_ids(es.take(i as int)), previous),
            decreases n - i,
        {
            let ghost ids = object_ids(es.take(i as int));
            assert(es.take(i + 1).drop_last() =~= es.take(i as int));
            let code = self.entries[i].code;
            if 330 <= code && code <= 369 {
                match self.entries[i].value.as_handle() {
                    Some(handle) => {
                        let k = refs.len();
                        let kind = if k < self.object_references.len() {
                            self.object_references[k].kind
                        } else if code <= 339 {
                            ProxyReferenceKind::SoftPointer
                        } else if code <= 349 {
                            ProxyReferenceKind::HardPointer
                        } else if code <= 359 {
                            ProxyReferenceKind::SoftOwnership
                        } else {
                            ProxyReferenceKind::HardOwnership
                        };
                        refs.push(ProxyObjectReference { handle, kind });
                        assert(refs@ =~= synchronized_references(ids.push((code, handle)), previous));
                    },
                    None => {},
                }
            }
            i += 1;
        }
        assert(es.take(n as int) =~= es);
        self.object_references = refs;
        self.preserve_object_reference_stream = false;
    }

    /// Append an entry; object-id entries also refresh the handle stream.
    pub fn add_entry(&mut self, entry: XRecordEntry)
        ensures
            same_identity(*old(self), *final(self)),
            final(self).model() == old(self).model().push(entry@),
            is_object_id_code(entry.code) ==> {
                &&& final(self).object_references@ == synchronized_references(
                    object_ids(final(self).model()),
                    old(self).object_references@,
                )
                &&& !final(self).preserve_object_reference_stream
            },
            !is_object_id_code(entry.code) ==> {
                &&& final(self).object_references == old(self).object_references
                &&& final(self).preserve_object_reference_stream
                    == old(self).preserve_object_reference_stream
            },
            final(self).entries_complete,
    {
        let is_object_id = 330 <= entry.code && entry.code <= 369;
        let ghost e = entry@;
        self.entries.push(entry);
        assert(self.model() =~= old(self).model().push(e));
        if is_object_id {
            self.synchronize_object_references();
        }
        self.entries_complete = true;
    }

    /// Append a plain (non-reference) entry.
    fn push_plain(&mut self, entry: XRecordEntry)
        ensures
            same_identity(*old(self), *final(self)),
            final(self).model() == old(self).model().push(entry@),
            final(self).object_references == old(self).object_references,
            final(self).preserve_object_reference_stream
                == old(self).preserve_object_reference_stream,
            final(self).entries_complete,
    {
        let ghost e = entry@;
        self.entries.push(entry);
        assert(self.model() =~= old(self).model().push(e));
        self.entries_complete = true;
    }

    /// Create and add a string entry.
    pub fn add_string(&mut self, code: i32, value: &str)
        ensures
            same_identity(*old(self), *final(self)),
            final(self).model() == old(self).model().push(
                EntryModel { code, value: ValueModel::Str(value@) },
            ),
            final(self).object_references == old(self).object_references,
            final(self).preserve_object_reference_stream
                == old(self).preserve_object_reference_stream,
            final(self).entries_complete,
    {
        self.push_plain(XRecordEntry::string(code, value));
    }

    /// Create and add a double entry (binary64 bit pattern).
    pub fn add_double(&mut self, code: i32, value: u64)
        ensures
            same_identity(*old(self), *final(self)),
            final(self).model() == old(self).model().push(
                EntryModel { code, value: ValueModel::Double(value) },
            ),
            final(self).object_references == old(self).object_references,
            final(self).preserve_object_reference_stream
                == old(self).preserve_object_reference_stream,
            final(self).entries_complete,
    {
        self.push_plain(XRecordEntry::double(code, value));
    }

    /// Create and add an i16 entry.
    pub fn add_int16(&mut self, code: i32, value: i16)
        ensures
            same_identity(*old(self), *final(self)),
            final(self).model() == old(self).model().push(
                EntryModel { code, value: ValueModel::Int16(value) },
            ),
            final(self).object_references == old(self).object_references,
            final(self).preserve_object_reference_stream
                == old(self).preserve_object_reference_stream,
            final(self).entries_complete,
    {
        self.push_plain(XRecordEntry::int16(code, value));
    }

    /// Create and add an i32 entry.
    pub fn add_int32(&mut self, code: i32, value: i32)
        ensures
            same_identity(*old(self), *final(self)),
            final(self).model() == old(self).model().push(
                EntryModel { code, value: ValueModel::Int32(value) },
            ),
            final(self).object_references == old(self).object_references,
            final(self).preserve_object_reference_stream
                == old(self).preserve_object_reference_stream,
            final(self).entries_complete,
    {
        self.push_plain(XRecordEntry::int32(code, value));
    }

    /// Create and add a handle entry; object-id codes also refresh the handle stream.
    pub fn add_handle(&mut self, code: i32, value: Handle)
        ensures
            same_identity(*old(self), *final(self)),
            final(self).model() == old(self).model().push(
                EntryModel { code, value: ValueModel::Handle(value) },
            ),
            is_object_id_code(code) ==> {
                &&& final(self).object_references@ == synchronized_references(
                    object_ids(final(self).model()),
                    old(self).object_references@,
                )
                &&& !final(self).preserve_object_reference_stream
            },
            !is_object_id_code(code) ==> {
                &&& final(self).object_references == old(self).object_references
                &&& final(self).preserve_object_reference_stream
                    == old(self).preserve_object_reference_stream
            },
            final(self).entries_complete,
    {
        self.add_entry(XRecordEntry::handle(code, value));
    }

    /// Create and add a bool entry.
    pub fn add_bool(&mut self, code: i32, value: bool)
        ensures
            same_identity(*old(self), *final(self)),
            final(self).model() == old(self).model().push(
                EntryModel { code, value: ValueModel::Bool(value) },
            ),
            final(self).object_references == old(self).object_references,
            final(self).preserve_object_reference_stream
                == old(self).preserve_object_reference_stream,
            final(self).entries_complete,
    {
        self.push_plain(XRecordEntry::bool(code, value));
    }

    /// Create and add a point entry (component bit patterns).
    pub fn add_point3d(&mut self, x_code: i32, x: u64, y: u64, z: u64)
        ensures
            same_identity(*old(self), *final(self)),
            final(self).model() == old(self).model().push(
                EntryModel { code: x_code, value: ValueModel::Point3D(x, y, z) },
            ),
            final(self).object_references == old(self).object_references,
            final(self).preserve_object_reference_stream
                == old(self).preserve_object_reference_stream,
            final(self).entries_complete,
    {
        self.push_plain(XRecordEntry::point3d(x_code, x, y, z));
    }

    /// Get the number of entries.
    pub fn len(&self) -> (n: usize)
        ensures
            n == self.entries@.len(),
    {
        self.entries.len()
    }

    /// Check if the record is empty.
    pub fn is_empty(&self) -> (b: bool)
        ensures
            b == (self.entries@.len() == 0),
    {
        self.entries.len() == 0
    }

    /// Get an entry by index.
    pub fn get(&self, index: usize) -> (r: Option<&XRecordEntry>)
        ensures
            index < self.entries@.len() ==> r == Some(&self.entries@[index as int]),
            index >= self.entries@.len() ==> r is None,
    {
        if index < self.entries.len() {
            Some(&self.entries[index])
        } else {
            None
        }
    }

    /// Index of the first entry with a given code.
    fn find_code(&self, code: i32) -> (r: Option<usize>)
        ensures
            r matches Some(i) ==> i < self.entries@.len() && first_with_code(self.model(), code)
                == Some(i as int),
            r is None ==> first_with_code(self.model(), code) is None,
    {
        let ghost es = self.model();
        let mut i: usize = 0;
        while i < self.entries.len()
            invariant
                es == self.model(),
                i <= self.entries@.len(),
                first_code_from(es, code, 0) == first_code_from(es, code, i as int),
            decreases self.entries@.len() - i,
        {
            if self.entries[i].code == code {
                return Some(i);
            }
            i += 1;
        }
        None
    }

    /// Get all entries with a specific code.
    pub fn get_by_code(&self, code: i32) -> (r: Vec<&XRecordEntry>)
        ensures
            r@.len() == entries_with_code(self.model(), code).len(),
            forall|k: int| 0 <= k < r@.len() ==> (#[trigger] r@[k])@ == entries_with_code(self.model(), code)[k],
    {
        let ghost es = self.model();
        let mut r: Vec<&XRecordEntry> = Vec::new();
        let mut i: usize = 0;
        while i < self.entries.len()
            invariant
                es == self.model(),
                i <= self.entries@.len(),
                r@.len() == entries_with_code(es.take(i as int), code).len(),
                forall|k: int| 0 <= k < r@.len() ==> (#[trigger] r@[k])@ == entries_with_code(es.take(i as int), code)[k],
            decreases self.entries@.len() - i,
        {
            assert(es.take(i + 1).drop_last() =~= es.take(i as int));
            if self.entries[i].code == code {
                r.push(&self.entries[i]);
            }
            i += 1;
        }
        assert(es.take(i as int) =~= es);
        r
    }

    /// Get the first entry with a specific code.
    pub fn get_first_by_code(&self, code: i32) -> (r: Option<&XRecordEntry>)
        ensures
            match first_with_code(self.model(), code) {
                Some(i) => r == Some(&self.entries@[i]),
                None => r is None,
            },
    {
        match self.find_code(code) {
            Some(i) => Some(&self.entries[i]),
            None => None,
        }
    }

    /// Get all string values with a specific code.
    pub fn get_strings(&self, code: i32) -> (r: Vec<&str>)
        ensures
            r@.len() == strings_with_code(self.model(), code).len(),
            forall|k: int| 0 <= k < r@.len() ==> (#[trigger] r@[k])@ == strings_with_code(self.model(), code)[k],
    {
        let ghost es = self.model();
        let mut r: Vec<&str> = Vec::new();
        let mut i: usize = 0;
        while i < self.entries.len()
            invariant
                es == self.model(),
                i <= self.entries@.len(),
                r@.len() == strings_with_code(es.take(i as int), code).len(),
                forall|k: int| 0 <= k < r@.len() ==> (#[trigger] r@[k])@ == strings_with_code(es.take(i as int), code)[k],
            decreases self.entries@.len() - i,
        {
            assert(es.take(i + 1).drop_last() =~= es.take(i as int));
            if self.entries[i].code == code {
                match self.entries[i].value.as_string() {
                    Some(t) => r.push(t),
                    None => {},
                }
            }
            i += 1;
        }
        assert(es.take(i as int) =~= es);
        r
    }

    /// Get the first string value with a specific code.
    pub fn get_string(&self, code: i32) -> (r: Option<&str>)
        ensures
            match first_with_code(self.model(), code) {
                Some(i) => match self.model()[i].value {
                    ValueModel::Str(t) => r is Some && r->0@ == t,
                    _ => r is None,
                },
                None => r is None,
            },
    {
        match self.find_code(code) {
            Some(i) => self.entries[i].value.as_string(),
            None => None,
        }
    }

    /// Get the first double value (bit pattern) with a specific code.
    pub fn get_double(&self, code: i32) -> (r: Option<u64>)
        ensures
            r == (match first_with_code(self.model(), code) {
                Some(i) => model_as_double(self.model()[i].value),
                None => None,
            }),
    {
        match self.find_code(code) {
            Some(i) => self.entries[i].value.as_double(),
            None => None,
        }
    }

    /// Get the first i32 value with a specific code.
    pub fn get_i32(&self, code: i32) -> (r: Option<i32>)
        ensures
            r == (match first_with_code(self.model(), code) {
                Some(i) => model_as_i32(self.model()[i].value),
                None => None,
            }),
    {
        match self.find_code(code) {
            Some(i) => self.entries[i].value.as_i32(),
            None => None,
        }
    }

    /// Keep the entries whose code lies outside `lo..=hi`, in order.
    fn retain_outside(&mut self, lo: i32, hi: i32)
        ensures
            same_identity(*old(self), *final(self)),
            final(self).model() == without_codes(old(self).model(), lo, hi),
            final(self).object_references == old(self).object_references,
            final(self).preserve_object_reference_stream
                == old(self).preserve_object_reference_stream,
            final(self).entries_complete == old(self).entries_complete,
    {
        let mut source: Vec<XRecordEntry> = Vec::new();
        std::mem::swap(&mut source, &mut self.entries);
        let ghost es = entries_model(source@);
        assert(self.model() =~= without_codes(es.take(0), lo, hi));
        let mut i: usize = 0;
        while i < source.len()
            invariant
                es == entries_model(source@),
                i <= source@.len(),
                self.model() == without_codes(es.take(i as int), lo, hi),
                same_identity(*old(self), *self),
                self.object_references == old(self).object_references,
                self.preserve_object_reference_stream == old(self).preserve_object_reference_stream,
                self.entries_complete == old(self).entries_complete,
            decreases source@.len() - i,
        {
            assert(es.take(i + 1).drop_last() =~= es.take(i as int));
            let code = source[i].code;
            if !(lo <= code && code <= hi) {
                let e = source[i].copy();
                let ghost before = self.model();
                self.entries.push(e);
                assert(self.model() =~= before.push(es[i as int]));
            }
            i += 1;
        }
        assert(es.take(i as int) =~= es);
    }

    /// Remove all entries with a specific code.
    pub fn remove_by_code(&mut self, code: i32)
        ensures
            same_identity(*old(self), *final(self)),
            final(self).model() == without_codes(old(self).model(), code, code),
            is_object_id_code(code) ==> {
                &&& final(self).object_references@ == synchronized_references(
                    object_ids(final(self).model()),
                    old(self).object_references@,
                )
                &&& !final(self).preserve_object_reference_stream
            },
            !is_object_id_code(code) ==> {
                &&& final(self).object_references == old(self).object_references
                &&& final(self).preserve_object_reference_stream
                    == old(self).preserve_object_reference_stream
            },
            final(self).entries_complete,
    {
        self.retain_outside(code, code);
        if 330 <= code && code <= 369 {
            self.synchronize_object_references();
        }
        self.entries_complete = true;
    }

    /// Clear all entries.
    pub fn clear(&mut self)
        ensures
            same_identity(*old(self), *final(self)),
            final(self).entries@.len() == 0,
            final(self).object_references@.len() == 0,
            !final(self).preserve_object_reference_stream,
            final(self).entries_complete,
    {
        self.entries.clear();
        self.object_references.clear();
        self.preserve_object_reference_stream = false;
        self.entries_complete = true;
    }

    /// Get all referenced handles: those of handle-valued entries and of the
    /// object-id handle stream, ordered by value, each once.
    pub fn get_references(&self) -> (r: Vec<Handle>)
        ensures
            r@ == references_of(*self),
            strictly_increasing(r@),
            forall|h: Handle|
                r@.contains(h) <==> (exists|i: int|
                    0 <= i < self.entries@.len() && model_as_handle(#[trigger] self.model()[i].value) == Some(h))
                    || (exists|i: int|
                    0 <= i < self.object_references@.len() && (#[trigger] self.object_references@[i]).handle == h),
    {
        let ghost es = self.model();
        let mut r: Vec<Handle> = Vec::new();
        let mut i: usize = 0;
        while i < self.entries.len()
            invariant
                es == self.model(),
                i <= self.entries@.len(),
                strictly_increasing(r@),
                forall|h: Handle|
                    r@.contains(h) <==> (exists|k: int|
                        0 <= k < i && model_as_handle(#[trigger] es[k].value) == Some(h)),
            decreases self.entries@.len() - i,
        {
            assert(es[i as int] == self.entries@[i as int]@);
            match self.entries[i].value.as_handle() {
                Some(h) => {
                    insert_sorted(&mut r, h);
                    assert forall|x: Handle|
                        r@.contains(x) <==> (exists|k: int|
                            0 <= k < i + 1 && model_as_handle(#[trigger] es[k].value) == Some(x)) by {
                        if x == h {
                            assert(model_as_handle(es[i as int].value) == Some(x));
                        }
                        if exists|k: int| 0 <= k < i + 1 && model_as_handle(#[trigger] es[k].value) == Some(x) {
                            let k = choose|k: int| 0 <= k < i + 1 && model_as_handle(#[trigger] es[k].value) == Some(x);
                            if k < i {
                                assert(exists|k: int| 0 <= k < i && model_as_handle(#[trigger] es[k].value) == Some(x));
                            }
                        }
                    }
                },
                None => {
                    assert forall|x: Handle|
                        r@.contains(x) <==> (exists|k: int|
                            0 <= k < i + 1 && model_as_handle(#[trigger] es[k].value) == Some(x)) by {
                        if exists|k: int| 0 <= k < i + 1 && model_as_handle(#[trigger] es[k].value) == Some(x) {
                            let k = choose|k: int| 0 <= k < i + 1 && model_as_handle(#[trigger] es[k].value) == Some(x);
                            assert(k < i);
                        }
                    }
                },
            }
            i += 1;
        }
        let mut j: usize = 0;
        while j < self.object_references.len()
            invariant
                es == self.model(),
                strictly_increasing(r@),
                j <= self.object_references@.len(),
                forall|h: Handle|
                    r@.contains(h) <==> (exists|k: int|
                        0 <= k < self.entries@.len() && model_as_handle(#[trigger] es[k].value) == Some(h))
                        || (exists|k: int|
                        0 <= k < j && (#[trigger] self.object_references@[k]).handle == h),
            decreases self.object_references@.len() - j,
        {
            insert_sorted(&mut r, self.object_references[j].handle);
            j += 1;
        }
        proof {
            assert forall|h: Handle| r@.contains(h) <==> refers_to(*self, h) by {}
            let s = references_of(*self);
            assert(strictly_increasing(s) && forall|h: Handle| s.contains(h) <==> refers_to(*self, h));
            lemma_increasing_unique(r@, s);
        }
        r
    }

    /// Iterate over entries.
    pub fn iter(&self) -> (it: std::slice::Iter<'_, XRecordEntry>)
        ensures
            vstd::std_specs::iter::IteratorSpec::remaining(&it) == self.entries@.as_ref(),
    {
        self.entries.as_slice().iter()
    }

    /// Return the well-known schema associated with this record's dictionary
    /// key. Unknown schemas remain fully editable through `entries`.
    pub fn known_kind(&self) -> (k: KnownXRecordKind)
        ensures
            k == known_kind_of(self.name@),
    {
        KnownXRecordKind::from_name(self.name.as_str())
    }
}

impl Default for XRecord {
    fn default() -> (r: Self)
        ensures
            r.entries@.len() == 0,
            r.object_references@.len() == 0,
            r.entries_complete,
            r.name@.len() == 0,
    {
        Self::new()
    }
}


/// A code-102 delimited section embedded in an XRecord payload.
#[derive(Debug, Clone, PartialEq)]
pub struct XRecordSection {
    pub name: String,
    pub entries: Vec<XRecordEntry>,
}

/// Mathematical model of a section.
pub struct SectionModel {
    pub name: Seq<char>,
    pub entries: Seq<EntryModel>,
}

impl View for XRecordSection {
    type V = SectionModel;

    open spec fn view(&self) -> SectionModel {
        SectionModel { name: self.name@, entries: entries_model(self.entries@) }
    }
}

/// Models of a sequence of sections.
pub open spec fn sections_model(s: Seq<XRecordSection>) -> Seq<SectionModel> {
    s.map_values(|x: XRecordSection| x@)
}

/// A code-102 string entry.
pub open spec fn marker(text: Seq<char>) -> EntryModel {
    EntryModel { code: 102, value: ValueModel::Str(text) }
}

/// State of the left-to-right section parse: the sections closed so far and
/// the stack of open sections, each with the entries gathered for it.
pub struct SectionScan {
    pub sections: Seq<SectionModel>,
    pub stack: Seq<(Seq<char>, Seq<EntryModel>)>,
}

/// The parse state after one more entry. An opening marker `{NAME` pushes a
/// section; a closing marker (`}` or `NAME}`) for the innermost section pops
/// it, records it, and copies it, with its markers, into its parent; any other
/// entry belongs to the innermost open section.
pub open spec fn scan_step(st: SectionScan, e: EntryModel) -> SectionScan {
    let other = if st.stack.len() > 0 {
        SectionScan {
            sections: st.sections,
            stack: st.stack.drop_last().push((st.stack.last().0, st.stack.last().1.push(e))),
        }
    } else {
        st
    };
    match e.value {
        ValueModel::Str(v) => if e.code == 102 && opens(v) {
            SectionScan { sections: st.sections, stack: st.stack.push((trim_open(v), Seq::empty())) }
        } else if e.code == 102 && st.stack.len() > 0 && closes(v, st.stack.last().0) {
            let name = st.stack.last().0;
            let body = st.stack.last().1;
            let rest = st.stack.drop_last();
            let rest2 = if rest.len() > 0 {
                rest.drop_last().push(
                    (
                        rest.last().0,
                        rest.last().1.push(marker(seq!['{'] + name)) + body + seq![marker(seq!['}'])],
                    ),
                )
            } else {
                rest
            };
            SectionScan {
                sections: st.sections.push(SectionModel { name, entries: body }),
                stack: rest2,
            }
        } else {
            other
        },
        _ => other,
    }
}

/// The parse state after all of `es`.
pub open spec fn section_scan(es: Seq<EntryModel>) -> SectionScan
    decreases es.len(),
{
    if es.len() == 0 {
        SectionScan { sections: Seq::empty(), stack: Seq::empty() }
    } else {
        scan_step(section_scan(es.drop_last()), es.last())
    }
}

/// Model of the exec parse stack.
pub open spec fn stack_model(st: Seq<(String, Vec<XRecordEntry>)>) -> Seq<(Seq<char>, Seq<EntryModel>)> {
    st.map_values(|p: (String, Vec<XRecordEntry>)| (p.0@, entries_model(p.1@)))
}

/// Append copies of all entries of `src` to `dst`.
fn append_copies(dst: &mut Vec<XRecordEntry>, src: &Vec<XRecordEntry>)
    ensures
        entries_model(final(dst)@) == entries_model(old(dst)@) + entries_model(src@),
{
    let mut i: usize = 0;
    while i < src.len()
        invariant
            i <= src@.len(),
            entries_model(dst@) =~= entries_model(old(dst)@) + entries_model(src@.subrange(0, i as int)),
        decreases src@.len() - i,
    {
        let ghost before = entries_model(dst@);
        dst.push(src[i].copy());
        assert(entries_model(dst@) =~= before.push(src@[i as int]@));
        assert(entries_model(src@.subrange(0, i + 1)) =~= entries_model(src@.subrange(0, i as int)).push(src@[i as int]@));
        i += 1;
    }
    assert(src@.subrange(0, src@.len() as int) =~= src@);
}

/// Role of an entry in the section parse: 0 opens a section, 1 closes the
/// innermost open section (named `top`), 2 is ordinary content.
fn classify_marker(e: &XRecordEntry, top: Option<&str>) -> (k: u8)
    ensures
        k <= 2,
        k == 0 <==> (e.code == 102 && e.value@ is Str && opens(e.value@->Str_0)),
        k == 1 <==> (e.code == 102 && e.value@ is Str && !opens(e.value@->Str_0) && top is Some
            && closes(e.value@->Str_0, top->0@)),
{
    if e.code != 102 {
        return 2;
    }
    match &e.value {
        XRecordValue::String(v) => {
            if starts_with_open(v.as_str()) {
                0
            } else {
                match top {
                    Some(t) => if closes_section(v.as_str(), t) {
                        1
                    } else {
                        2
                    },
                    None => 2,
                }
            }
        },
        _ => 2,
    }
}

impl XRecord {
    /// Parse balanced code-102 `{NAME` / `}` groups while preserving entry
    /// order. Nested groups are supported; a section is listed when it closes.
    pub fn sections(&self) -> (r: Vec<XRecordSection>)
        ensures
            sections_model(r@) == section_scan(self.model()).sections,
    {
        let ghost es = self.model();
        let mut sections: Vec<XRecordSection> = Vec::new();
        let mut stack: Vec<(String, Vec<XRecordEntry>)> = Vec::new();
        let mut i: usize = 0;
        while i < self.entries.len()
            invariant
                es == self.model(),
                i <= self.entries@.len(),
                sections_model(sections@) == section_scan(es.take(i as int)).sections,
                stack_model(stack@) == section_scan(es.take(i as int)).stack,
            decreases self.entries@.len() - i,
        {
            assert(es.take(i + 1).drop_last() =~= es.take(i as int));
            let ghost st = section_scan(es.take(i as int));
            let ghost e = es[i as int];
            assert(e == self.entries@[i as int]@);
            let entry = &self.entries[i];
            let kind = if stack.len() > 0 {
                classify_marker(entry, Some(stack[stack.len() - 1].0.as_str()))
            } else {
                classify_marker(entry, None)
            };
            if kind == 0 {
                let v = entry.value.as_string().unwrap();
                let name = trim_open_braces(v);
                let fresh: Vec<XRecordEntry> = Vec::new();
                assert(entries_model(fresh@) =~= Seq::<EntryModel>::empty());
                let ghost before = stack@;
                stack.push((name, fresh));
                assert(stack@ == before.push((name, fresh)));
                assert(stack_model(stack@) =~= stack_model(before).push((name@, Seq::<EntryModel>::empty())));
                assert(stack_model(stack@) =~= scan_step(st, e).stack);
            } else if kind == 1 {
                let ghost top = st.stack.last();
                let ghost rest = st.stack.drop_last();
                let ghost v = e.value->Str_0;
                assert(e.code == 102 && !opens(v) && st.stack.len() > 0 && closes(v, top.0));
                assert(scan_step(st, e).stack == (if rest.len() > 0 {
                    rest.drop_last().push(
                        (
                            rest.last().0,
                            rest.last().1.push(marker(seq!['{'] + top.0)) + top.1 + seq![marker(seq!['}'])],
                        ),
                    )
                } else {
                    rest
                }));
                assert(stack_model(stack@).last() == top);
                let ghost before = stack@;
                let (name, body) = stack.pop().unwrap();
                assert(stack@ == before.drop_last());
                assert(stack_model(before).last() == (before.last().0@, entries_model(before.last().1@)));
                assert(name@ == top.0);
                assert(entries_model(body@) == top.1);
                assert(stack_model(stack@) =~= st.stack.drop_last());
                if stack.len() > 0 {
                    let ghost parent = stack_model(stack@).last();
                    let ghost before2 = stack@;
                    let (parent_name, mut parent_entries) = stack.pop().unwrap();
                    assert(stack@ == before2.drop_last());
                    assert(stack_model(before2).last() == (before2.last().0@, entries_model(before2.last().1@)));
                    assert(parent_name@ == parent.0);
                    let open_text = open_marker(name.as_str());
                    let open = XRecordEntry::string(102, open_text.as_str());
                    let ghost m0 = entries_model(parent_entries@);
                    assert(m0 == parent.1);
                    parent_entries.push(open);
                    assert(entries_model(parent_entries@) =~= m0.push(marker(seq!['{'] + name@)));
                    let ghost m1 = entries_model(parent_entries@);
                    append_copies(&mut parent_entries, &body);
                    let ghost m2 = entries_model(parent_entries@);
                    assert(m2 == m1 + top.1);
                    let close_text = close_marker();
                    let close = XRecordEntry::string(102, close_text.as_str());
                    parent_entries.push(close);
                    assert(entries_model(parent_entries@) =~= m2.push(marker(seq!['}'])));
                    assert(entries_model(parent_entries@) =~= parent.1.push(marker(seq!['{'] + top.0)) + top.1
                        + seq![marker(seq!['}'])]);
                    let ghost mid = stack@;
                    assert(stack_model(mid) =~= st.stack.drop_last().drop_last());
                    stack.push((parent_name, parent_entries));
                    assert(stack@ == mid.push((parent_name, parent_entries)));
                    assert(stack_model(stack@) =~= stack_model(mid).push((parent_name@, entries_model(parent_entries@))));
                }
                sections.push(XRecordSection { name, entries: body });
                assert(stack_model(stack@) =~= scan_step(st, e).stack);
                assert(sections_model(sections@) =~= scan_step(st, e).sections);
            } else {
                if stack.len() > 0 {
                    let ghost before = stack@;
                    let (top_name, mut top_entries) = stack.pop().unwrap();
                    assert(stack@ == before.drop_last());
                    assert(top_name@ == st.stack.last().0);
                    assert(entries_model(top_entries@) == st.stack.last().1);
                    let ghost m0 = entries_model(top_entries@);
                    top_entries.push(entry.copy());
                    assert(entries_model(top_entries@) =~= m0.push(e));
                    let ghost mid = stack@;
                    stack.push((top_name, top_entries));
                    assert(stack@ == mid.push((top_name, top_entries)));
                    assert(stack_model(stack@) =~= stack_model(mid).push((top_name@, entries_model(top_entries@))));
                    assert(stack_model(mid) =~= st.stack.drop_last());
                }
                assert(stack_model(stack@) =~= scan_step(st, e).stack);
                assert(sections_model(sections@) =~= scan_step(st, e).sections);
            }
            i += 1;
        }
        assert(es.take(i as int) =~= es);
        sections
    }
}


/// Index of the first section at or after `k` whose name equals `name` ignoring
/// ASCII case (`ss.len()` when none).
pub open spec fn first_section_from(ss: Seq<SectionModel>, name: Seq<char>, k: int) -> int
    decreases ss.len() - k,
{
    if k < 0 || k >= ss.len() {
        ss.len() as int
    } else if eq_ci(ss[k].name, name) {
        k
    } else {
        first_section_from(ss, name, k + 1)
    }
}

/// State of the search for the section that `set_section` replaces: where its
/// opening marker stands, the nesting depth inside it, and where it closes.
pub struct BoundsScan {
    pub start: Option<int>,
    pub depth: nat,
    pub end: Option<int>,
}

/// The search state after the entry at index `idx`. The search stops at the
/// first balanced close of the first marker equal to `start_text` (ASCII case
/// ignored); opening markers inside it deepen the nesting, and markers that end
/// with `}` (without beginning with `{`) close one level.
pub open spec fn bounds_step(st: BoundsScan, idx: int, e: EntryModel, start_text: Seq<char>) -> BoundsScan {
    if st.end is Some {
        st
    } else {
        match e.value {
            ValueModel::Str(v) => if e.code == 102 && eq_ci(v, start_text) {
                if st.start is None {
                    BoundsScan { start: Some(idx), depth: 1, end: None }
                } else if st.depth > 0 {
                    BoundsScan { start: st.start, depth: st.depth + 1, end: None }
                } else {
                    st
                }
            } else if e.code == 102 && st.start is Some && opens(v) {
                BoundsScan { start: st.start, depth: st.depth + 1, end: None }
            } else if e.code == 102 && st.start is Some && (v == seq!['}'] || (!opens(v)
                && ends_with_close(v))) {
                let d: nat = if st.depth > 0 {
                    (st.depth - 1) as nat
                } else {
                    0
                };
                if d == 0 {
                    BoundsScan { start: st.start, depth: d, end: Some(idx) }
                } else {
                    BoundsScan { start: st.start, depth: d, end: None }
                }
            } else {
                st
            },
            _ => st,
        }
    }
}

/// The search state after all of `es`.
pub open spec fn bounds_scan(es: Seq<EntryModel>, start_text: Seq<char>) -> BoundsScan
    decreases es.len(),
{
    if es.len() == 0 {
        BoundsScan { start: None, depth: 0, end: None }
    } else {
        bounds_step(bounds_scan(es.drop_last(), start_text), es.len() - 1, es.last(), start_text)
    }
}

/// The entries that `set_section` writes: opening marker, body, closing marker.
pub open spec fn section_block(name: Seq<char>, body: Seq<EntryModel>) -> Seq<EntryModel> {
    seq![marker(seq!['{'] + name)] + body + seq![marker(seq!['}'])]
}

/// Entries after `set_section(name, body)`: the balanced section found by the
/// search is replaced by the new block, or the block is appended.
pub open spec fn with_section(es: Seq<EntryModel>, name: Seq<char>, body: Seq<EntryModel>) -> Seq<EntryModel> {
    let b = bounds_scan(es, seq!['{'] + name);
    match (b.start, b.end) {
        (Some(s), Some(e)) => es.subrange(0, s) + section_block(name, body) + es.subrange(e + 1, es.len() as int),
        _ => es + section_block(name, body),
    }
}

proof fn lemma_bounds_scan_wf(es: Seq<EntryModel>, start_text: Seq<char>)
    ensures
        bounds_scan(es, start_text).depth <= es.len(),
        bounds_scan(es, start_text).start is None ==> bounds_scan(es, start_text).end is None,
        bounds_scan(es, start_text).start matches Some(s) ==> 0 <= s < es.len(),
        bounds_scan(es, start_text).end matches Some(e) ==> {
            &&& bounds_scan(es, start_text).start is Some
            &&& bounds_scan(es, start_text).start->0 <= e < es.len()
        },
    decreases es.len(),
{
    if es.len() > 0 {
        lemma_bounds_scan_wf(es.drop_last(), start_text);
    }
}

impl XRecord {
    /// Get a code-102 section by name (ASCII case ignored): the first such
    /// section in `sections` order.
    pub fn section(&self, name: &str) -> (r: Option<XRecordSection>)
        ensures
            ({
                let ss = section_scan(self.model()).sections;
                let k = first_section_from(ss, name@, 0);
                if k < ss.len() {
                    r is Some && r->0@ == ss[k]
                } else {
                    r is None
                }
            }),
    {
        let ghost ss = section_scan(self.model()).sections;
        let mut all = self.sections();
        let mut i: usize = 0;
        while i < all.len()
            invariant
                ss == section_scan(self.model()).sections,
                sections_model(all@) == ss,
                i <= all@.len(),
                first_section_from(ss, name@, 0) == first_section_from(ss, name@, i as int),
            decreases all@.len() - i,
        {
            assert(ss[i as int] == all@[i as int]@);
            if eq_ignore_ascii_case(all[i].name.as_str(), name) {
                let ghost target = all@[i as int];
                let found = all.remove(i);
                assert(found == target);
                assert(first_section_from(ss, name@, i as int) == i);
                assert(found@ == ss[i as int]);
                assert(ss == section_scan(self.model()).sections);
                return Some(found);
            }
            i += 1;
        }
        None
    }

    /// Replace or append a balanced code-102 section.
    pub fn set_section(&mut self, name: &str, entries: Vec<XRecordEntry>)
        ensures
            same_identity(*old(self), *final(self)),
            final(self).model() == with_section(old(self).model(), name@, entries_model(entries@)),
            final(self).object_references@ == synchronized_references(
                object_ids(final(self).model()),
                old(self).object_references@,
            ),
            !final(self).preserve_object_reference_stream,
            final(self).entries_complete,
    {
        let start_text = open_marker(name);
        let ghost es = self.model();
        let ghost st_text = start_text@;
        let mut start: Option<usize> = None;
        let mut depth: usize = 0;
        let mut end: Option<usize> = None;
        let mut i: usize = 0;
        while i < self.entries.len() && end.is_none()
            invariant
                es == self.model(),
                st_text == start_text@,
                i <= self.entries@.len(),
                bounds_scan(es.take(i as int), st_text) == (BoundsScan {
                    start: match start {
                        Some(s) => Some(s as int),
                        None => None,
                    },
                    depth: depth as nat,
                    end: match end {
                        Some(e) => Some(e as int),
                        None => None,
                    },
                }),
                depth <= i,
            decreases self.entries@.len() - i,
        {
            assert(es.take(i + 1).drop_last() =~= es.take(i as int));
            let ghost e = es[i as int];
            assert(e == self.entries@[i as int]@);
            let entry = &self.entries[i];
            if entry.code == 102 {
                match &entry.value {
                    XRecordValue::String(v) => {
                        let text = v.as_str();
                        if eq_ignore_ascii_case(text, start_text.as_str()) {
                            if start.is_none() {
                                start = Some(i);
                                depth = 1;
                            } else if depth > 0 {
                                depth += 1;
                            }
                        } else if start.is_some() && starts_with_open(text) {
                            depth += 1;
                        } else if start.is_some() && ((crate::text::char_count(text) == 1
                            && crate::text::char_at(text, 0) == '}') || (!starts_with_open(text)
                            && crate::text::ends_with_closing(text))) {
                            proof {
                                if text@.len() == 1 && text@[0] == '}' {
                                    assert(text@ =~= seq!['}']);
                                }
                            }
                            depth = if depth > 0 {
                                depth - 1
                            } else {
                                0
                            };
                            if depth == 0 {
                                end = Some(i);
                            }
                        } else {
                            proof {
                                if text@ == seq!['}'] {
                                    assert(text@.len() == 1 && text@[0] == '}');
                                }
                            }
                        }
                    },
                    _ => {},
                }
            }
            i += 1;
        }
        proof {
            if end is Some {
                lemma_bounds_frozen(es, i as int, st_text);
            } else {
                assert(es.take(i as int) =~= es);
            }
            lemma_bounds_scan_wf(es, st_text);
        }
        let ghost body = entries_model(entries@);
        let mut entries = entries;
        let open_text = open_marker(name);
        let open = XRecordEntry::string(102, open_text.as_str());
        let close_text = close_marker();
        let close = XRecordEntry::string(102, close_text.as_str());
        match (start, end) {
            (Some(s), Some(e)) => {
                let mut tail = self.entries.split_off(e + 1);
                self.entries.truncate(s);
                let ghost m0 = self.model();
                assert(m0 =~= es.subrange(0, s as int));
                assert(entries_model(tail@) =~= es.subrange(e + 1, es.len() as int));
                self.entries.push(open);
                assert(self.model() =~= m0.push(marker(seq!['{'] + name@)));
                let ghost m1 = self.model();
                self.entries.append(&mut entries);
                assert(self.model() =~= m1 + body);
                let ghost m2 = self.model();
                self.entries.push(close);
                assert(self.model() =~= m2.push(marker(seq!['}'])));
                let ghost m3 = self.model();
                let ghost tm = entries_model(tail@);
                self.entries.append(&mut tail);
                assert(self.model() =~= m3 + tm);
                assert(self.model() =~= with_section(es, name@, body));
            },
            _ => {
                let ghost m0 = self.model();
                self.entries.push(open);
                assert(self.model() =~= m0.push(marker(seq!['{'] + name@)));
                let ghost m1 = self.model();
                self.entries.append(&mut entries);
                assert(self.model() =~= m1 + body);
                let ghost m2 = self.model();
                self.entries.push(close);
                assert(self.model() =~= m2.push(marker(seq!['}'])));
                assert(self.model() =~= with_section(es, name@, body));
            },
        }
        self.synchronize_object_references();
        self.entries_complete = true;
    }
}

/// Once the search has found the end of the section, later entries leave it unchanged.
proof fn lemma_bounds_frozen(es: Seq<EntryModel>, k: int, start_text: Seq<char>)
    requires
        0 <= k <= es.len(),
        bounds_scan(es.take(k), start_text).end is Some,
    ensures
        bounds_scan(es, start_text) == bounds_scan(es.take(k), start_text),
    decreases es.len(),
{
    if k == es.len() {
        assert(es.take(k) =~= es);
    } else {
        assert(es.drop_last().take(k) =~= es.take(k));
        lemma_bounds_frozen(es.drop_last(), k, start_text);
    }
}


/// UVW triples read from entries: an entry with code 43 and a double value
/// starts a triple, the next two entries complete it when they carry codes 44
/// and 45 with double values (otherwise those two entries are skipped); a
/// start with fewer than two entries after it ends the reading.
pub open spec fn mesh_coords(es: Seq<EntryModel>) -> Seq<Vector3>
    decreases es.len(),
{
    if es.len() == 0 {
        Seq::empty()
    } else if es[0].code != 43 || model_as_double(es[0].value) is None {
        mesh_coords(es.drop_first())
    } else if es.len() < 3 {
        Seq::empty()
    } else {
        let rest = mesh_coords(es.subrange(3, es.len() as int));
        if es[1].code == 44 && es[2].code == 45 && model_as_double(es[1].value) is Some
            && model_as_double(es[2].value) is Some {
            seq![
                Vector3 {
                    x: model_as_double(es[0].value)->0,
                    y: model_as_double(es[1].value)->0,
                    z: model_as_double(es[2].value)->0,
                },
            ] + rest
        } else {
            rest
        }
    }
}

/// The entries that encode UVW triples: codes 43, 44, 45 per triple, in order.
pub open spec fn mesh_entries(cs: Seq<Vector3>) -> Seq<EntryModel>
    decreases cs.len(),
{
    if cs.len() == 0 {
        Seq::empty()
    } else {
        mesh_entries(cs.drop_last()) + seq![
            EntryModel { code: 43, value: ValueModel::Double(cs.last().x) },
            EntryModel { code: 44, value: ValueModel::Double(cs.last().y) },
            EntryModel { code: 45, value: ValueModel::Double(cs.last().z) },
        ]
    }
}

/// Entries that end a viewport-override group: a viewport entry (code 335) or
/// a code-102 marker ending with `}`.
pub open spec fn stops_override(e: EntryModel) -> bool {
    e.code == 335 || (e.code == 102 && match e.value {
        ValueModel::Str(v) => ends_with_close(v),
        _ => false,
    })
}

/// First entry at or after `k`, before any group end, whose code is `code`.
pub open spec fn region_slot(es: Seq<EntryModel>, k: int, code: i32) -> Option<int>
    decreases es.len() - k,
{
    if k < 0 || k >= es.len() {
        None
    } else if stops_override(es[k]) {
        None
    } else if es[k].code == code {
        Some(k)
    } else {
        region_slot(es, k + 1, code)
    }
}

/// The entry that `set_layer_viewport_override` updates: the value entry with
/// code `code` in the group of the first viewport entry (at or after `i`) for
/// `viewport` whose group has one.
pub open spec fn override_slot(es: Seq<EntryModel>, i: int, viewport: Handle, code: i32) -> Option<int>
    decreases es.len() - i,
{
    if i < 0 || i >= es.len() {
        None
    } else if es[i].code == 335 && model_as_handle(es[i].value) == Some(viewport) {
        match region_slot(es, i + 1, code) {
            Some(j) => Some(j),
            None => override_slot(es, i + 1, viewport, code),
        }
    } else {
        override_slot(es, i + 1, viewport, code)
    }
}

/// Entries after setting a viewport override: the value entry found by
/// `override_slot` takes the new value, or a new section is appended holding
/// the viewport and the value.
pub open spec fn with_viewport_override(
    es: Seq<EntryModel>,
    section_name: Seq<char>,
    value_code: i32,
    viewport: Handle,
    value: ValueModel,
) -> Seq<EntryModel> {
    match override_slot(es, 0, viewport, value_code) {
        Some(j) => es.update(j, EntryModel { code: es[j].code, value }),
        None => es + seq![
            marker(seq!['{'] + section_name),
            EntryModel { code: 335, value: ValueModel::Handle(viewport) },
            EntryModel { code: value_code, value },
            marker(seq!['}']),
        ],
    }
}

/// State of the reading of viewport overrides: the pending viewport and the pairs found.
pub struct OverrideScan {
    pub viewport: Option<Handle>,
    pub found: Seq<(Handle, ValueModel)>,
}

/// Reading of viewport overrides: a code-335 entry sets the pending viewport
/// (to its handle, if it has one); an entry with `value_code` pairs with the
/// pending viewport and clears it.
pub open spec fn override_scan(es: Seq<EntryModel>, value_code: i32) -> OverrideScan
    decreases es.len(),
{
    if es.len() == 0 {
        OverrideScan { viewport: None, found: Seq::empty() }
    } else {
        let st = override_scan(es.drop_last(), value_code);
        let e = es.last();
        if e.code == 335 {
            OverrideScan { viewport: model_as_handle(e.value), found: st.found }
        } else if e.code == value_code {
            match st.viewport {
                Some(h) => OverrideScan { viewport: None, found: st.found.push((h, e.value)) },
                None => st,
            }
        } else {
            st
        }
    }
}

impl XRecord {
    /// Decode Autodesk mesh UVW triples (codes 43, 44, 45).
    pub fn mesh_texture_coordinates(&self) -> (r: Vec<Vector3>)
        ensures
            r@ == mesh_coords(self.model()),
    {
        let ghost es = self.model();
        let n = self.entries.len();
        let mut result: Vec<Vector3> = Vec::new();
        let mut i: usize = 0;
        assert(es.subrange(0, n as int) =~= es);
        while i < n
            invariant
                es == self.model(),
                n == es.len(),
                i <= n,
                mesh_coords(es) == result@ + mesh_coords(es.subrange(i as int, n as int)),
            decreases n - i,
        {
            let ghost rest = es.subrange(i as int, n as int);
            assert(rest[0] == self.entries@[i as int]@);
            let entry = &self.entries[i];
            let start = if entry.code == 43 {
                entry.value.as_double()
            } else {
                None
            };
            match start {
                None => {
                    i += 1;
                    assert(rest.drop_first() =~= es.subrange(i as int, n as int));
                },
                Some(u) => {
                    if n - i < 3 {
                        i = n;
                        assert(mesh_coords(rest) =~= Seq::<Vector3>::empty());
                        assert(es.subrange(i as int, n as int) =~= Seq::<EntryModel>::empty());
                        assert(result@ + Seq::<Vector3>::empty() =~= result@);
                    } else {
                        let v_entry = &self.entries[i + 1];
                        let w_entry = &self.entries[i + 2];
                        assert(rest[1] == v_entry@);
                        assert(rest[2] == w_entry@);
                        i += 3;
                        assert(rest.subrange(3, rest.len() as int) =~= es.subrange(i as int, n as int));
                        if v_entry.code == 44 && w_entry.code == 45 {
                            match (v_entry.value.as_double(), w_entry.value.as_double()) {
                                (Some(v), Some(w)) => {
                                    let ghost before = result@;
                                    result.push(Vector3 { x: u, y: v, z: w });
                                    assert(result@ =~= before + seq![Vector3 { x: u, y: v, z: w }]);
                                    assert(mesh_coords(es) =~= result@ + mesh_coords(es.subrange(i as int, n as int)));
                                },
                                _ => {},
                            }
                        }
                    }
                },
            }
        }
        assert(es.subrange(n as int, n as int) =~= Seq::<EntryModel>::empty());
        assert(result@ + Seq::<Vector3>::empty() =~= result@);
        result
    }

    /// Replace Autodesk mesh UVW triples without disturbing unrelated entries.
    pub fn set_mesh_texture_coordinates(&mut self, coordinates: &[Vector3])
        ensures
            same_identity(*old(self), *final(self)),
            final(self).model() == without_codes(old(self).model(), 43, 45) + mesh_entries(coordinates@),
            final(self).object_references == old(self).object_references,
            final(self).preserve_object_reference_stream == old(self).preserve_object_reference_stream,
            final(self).entries_complete,
    {
        self.retain_outside(43, 45);
        let ghost base = self.model();
        let mut i: usize = 0;
        while i < coordinates.len()
            invariant
                i <= coordinates@.len(),
                self.model() == base + mesh_entries(coordinates@.take(i as int)),
                same_identity(*old(self), *self),
                self.object_references == old(self).object_references,
                self.preserve_object_reference_stream == old(self).preserve_object_reference_stream,
            decreases coordinates@.len() - i,
        {
            let c = coordinates[i];
            let ghost m0 = self.model();
            self.entries.push(XRecordEntry::double(43, c.x));
            self.entries.push(XRecordEntry::double(44, c.y));
            self.entries.push(XRecordEntry::double(45, c.z));
            assert(coordinates@.take(i + 1).drop_last() =~= coordinates@.take(i as int));
            assert(self.model() =~= m0 + seq![
                EntryModel { code: 43, value: ValueModel::Double(c.x) },
                EntryModel { code: 44, value: ValueModel::Double(c.y) },
                EntryModel { code: 45, value: ValueModel::Double(c.z) },
            ]);
            i += 1;
        }
        assert(coordinates@.take(i as int) =~= coordinates@);
        self.entries_complete = true;
    }

    /// Viewport annotation-scale object referenced by code 340.
    pub fn annotation_scale_handle(&self) -> (r: Option<Handle>)
        ensures
            r == (match first_with_code(self.model(), 340) {
                Some(i) => model_as_handle(self.model()[i].value),
                None => None,
            }),
    {
        match self.find_code(340) {
            Some(i) => self.entries[i].value.as_handle(),
            None => None,
        }
    }

    /// Set the viewport annotation-scale reference while retaining all other
    /// application data.
    pub fn set_annotation_scale_handle(&mut self, handle: Handle)
        ensures
            same_identity(*old(self), *final(self)),
            final(self).model() == (match first_with_code(old(self).model(), 340) {
                Some(i) => old(self).model().update(
                    i,
                    EntryModel { code: 340, value: ValueModel::Handle(handle) },
                ),
                None => old(self).model().push(
                    EntryModel { code: 340, value: ValueModel::Handle(handle) },
                ),
            }),
            final(self).object_references@ == synchronized_references(
                object_ids(final(self).model()),
                old(self).object_references@,
            ),
            !final(self).preserve_object_reference_stream,
            final(self).entries_complete,
    {
        let ghost m0 = self.model();
        match self.find_code(340) {
            Some(i) => {
                self.entries.set(i, XRecordEntry::handle(340, handle));
                assert(self.model() =~= m0.update(
                    i as int,
                    EntryModel { code: 340, value: ValueModel::Handle(handle) },
                ));
            },
            None => {
                self.entries.push(XRecordEntry::handle(340, handle));
                assert(self.model() =~= m0.push(
                    EntryModel { code: 340, value: ValueModel::Handle(handle) },
                ));
            },
        }
        self.synchronize_object_references();
        self.entries_complete = true;
    }

    /// Decode viewport-specific layer override pairs. The viewport handle is
    /// code 335; `value_code` is 440 (alpha), 420 (color), 343 (linetype) or
    /// 91 (lineweight).
    pub fn layer_viewport_overrides(&self, value_code: i32) -> (r: Vec<(Handle, XRecordValue)>)
        ensures
            r@.len() == override_scan(self.model(), value_code).found.len(),
            forall|k: int|
                0 <= k < r@.len() ==> ((#[trigger] r@[k]).0, r@[k].1@) == override_scan(
                    self.model(),
                    value_code,
                ).found[k],
    {
        let ghost es = self.model();
        let mut result: Vec<(Handle, XRecordValue)> = Vec::new();
        let mut viewport: Option<Handle> = None;
        let mut i: usize = 0;
        while i < self.entries.len()
            invariant
                es == self.model(),
                i <= self.entries@.len(),
                override_scan(es.take(i as int), value_code).viewport == viewport,
                result@.len() == override_scan(es.take(i as int), value_code).found.len(),
                forall|k: int|
                    0 <= k < result@.len() ==> ((#[trigger] result@[k]).0, result@[k].1@) == override_scan(
                        es.take(i as int),
                        value_code,
                    ).found[k],
            decreases self.entries@.len() - i,
        {
            assert(es.take(i + 1).drop_last() =~= es.take(i as int));
            assert(es[i as int] == self.entries@[i as int]@);
            let entry = &self.entries[i];
            if entry.code == 335 {
                viewport = entry.value.as_handle();
            } else if entry.code == value_code {
                match viewport {
                    Some(h) => {
                        result.push((h, entry.value.copy()));
                        viewport = None;
                    },
                    None => {},
                }
            }
            i += 1;
        }
        assert(es.take(i as int) =~= es);
        result
    }

    /// Set one viewport-specific layer override in its Autodesk section: the
    /// existing value entry for the viewport is updated, or a new section
    /// holding the viewport and the value is appended.
    pub fn set_layer_viewport_override(
        &mut self,
        section_name: &str,
        value_code: i32,
        viewport: Handle,
        value: XRecordValue,
    )
        ensures
            same_identity(*old(self), *final(self)),
            final(self).model() == with_viewport_override(
                old(self).model(),
                section_name@,
                value_code,
                viewport,
                value@,
            ),
            final(self).object_references@ == synchronized_references(
                object_ids(final(self).model()),
                old(self).object_references@,
            ),
            !final(self).preserve_object_reference_stream,
            final(self).entries_complete,
    {
        let ghost m0 = self.model();
        let ghost v = value@;
        match self.find_override_slot(viewport, value_code) {
            Some(j) => {
                let code = self.entries[j].code;
                self.entries.set(j, XRecordEntry { code, value });
                assert(self.model() =~= m0.update(j as int, EntryModel { code: m0[j as int].code, value: v }));
            },
            None => {
                let open_text = open_marker(section_name);
                let close_text = close_marker();
                self.entries.push(XRecordEntry::string(102, open_text.as_str()));
                self.entries.push(XRecordEntry::handle(335, viewport));
                self.entries.push(XRecordEntry { code: value_code, value });
                self.entries.push(XRecordEntry::string(102, close_text.as_str()));
                assert(self.model() =~= m0 + seq![
                    marker(seq!['{'] + section_name@),
                    EntryModel { code: 335, value: ValueModel::Handle(viewport) },
                    EntryModel { code: value_code, value: v },
                    marker(seq!['}']),
                ]);
            },
        }
        self.entries_complete = true;
        self.synchronize_object_references();
    }

    /// First entry at or after `from`, before any group end, with code `code`.
    fn region_search(&self, from: usize, code: i32) -> (r: Option<usize>)
        ensures
            r matches Some(j) ==> j < self.entries@.len() && region_slot(self.model(), from as int, code)
                == Some(j as int),
            r is None ==> region_slot(self.model(), from as int, code) is None,
    {
        let ghost es = self.model();
        let n = self.entries.len();
        let mut k = from;
        if k > n {
            return None;
        }
        while k < n
            invariant
                es == self.model(),
                n == es.len(),
                from <= k <= n,
                region_slot(es, from as int, code) == region_slot(es, k as int, code),
            decreases n - k,
        {
            assert(es[k as int] == self.entries@[k as int]@);
            let e = &self.entries[k];
            let stop = e.code == 335 || (e.code == 102 && match &e.value {
                XRecordValue::String(v) => crate::text::ends_with_closing(v.as_str()),
                _ => false,
            });
            if stop {
                return None;
            }
            if e.code == code {
                return Some(k);
            }
            k += 1;
        }
        None
    }

    /// Locate the value entry that `set_layer_viewport_override` would update.
    fn find_override_slot(&self, viewport: Handle, value_code: i32) -> (r: Option<usize>)
        ensures
            r matches Some(j) ==> j < self.entries@.len() && override_slot(self.model(), 0, viewport, value_code)
                == Some(j as int),
            r is None ==> override_slot(self.model(), 0, viewport, value_code) is None,
    {
        let ghost es = self.model();
        let n = self.entries.len();
        let mut index: usize = 0;
        while index < n
            invariant
                es == self.model(),
                n == es.len(),
                index <= n,
                override_slot(es, 0, viewport, value_code) == override_slot(es, index as int, viewport, value_code),
            decreases n - index,
        {
            assert(es[index as int] == self.entries@[index as int]@);
            if self.entries[index].code == 335 && self.entries[index].value.as_handle() == Some(viewport) {
                match self.region_search(index + 1, value_code) {
                    Some(j) => {
                        return Some(j);
                    },
                    None => {},
                }
            }
            index += 1;
        }
        None
    }
}

} // verus!
