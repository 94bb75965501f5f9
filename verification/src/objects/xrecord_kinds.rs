//! The table of known XRecord dictionary keys: for each key, ASCII case
//! ignored, the schema it names.

use vstd::prelude::*;
use crate::objects::xrecord::{known_kind_of, KnownXRecordKind};
use crate::objects::xrecord_laws::law_kind_ignores_case;
use crate::text::{eq_ci, upper_seq, upper_char};

verus! {

/// Names of different lengths never match.
proof fn lemma_lengths_differ(a: Seq<char>, b: Seq<char>)
    requires
        a.len() != b.len(),
    ensures
        !eq_ci(a, b),
{
    assert(upper_seq(a).len() == a.len() && upper_seq(b).len() == b.len());
}

/// Names that differ, ASCII case ignored, at one position never match.
proof fn lemma_differ_at(a: Seq<char>, b: Seq<char>, i: int)
    requires
        0 <= i < a.len(),
        a.len() == b.len(),
        upper_char(a[i]) != upper_char(b[i]),
    ensures
        !eq_ci(a, b),
{
    if eq_ci(a, b) {
        assert(upper_seq(a)[i] == upper_seq(b)[i]);
    }
}

proof fn lemma_key_0(s: Seq<char>)
    requires
        eq_ci(s, "ADSK_XREC_LAYER_ALPHA_OVR"@),
    ensures
        known_kind_of(s) == KnownXRecordKind::LayerViewportAlphaOverride,
{
    reveal_strlit("ADSK_XREC_LAYER_ALPHA_OVR");
    law_kind_ignores_case(s, "ADSK_XREC_LAYER_ALPHA_OVR"@);
}

proof fn lemma_key_1(s: Seq<char>)
    requires
        eq_ci(s, "ADSK_XREC_LAYER_COLOR_OVR"@),
    ensures
        known_kind_of(s) == KnownXRecordKind::LayerViewportColorOverride,
{
    reveal_strlit("ADSK_XREC_LAYER_COLOR_OVR");
    reveal_strlit("ADSK_XREC_LAYER_ALPHA_OVR");
    lemma_differ_at("ADSK_XREC_LAYER_COLOR_OVR"@, "ADSK_XREC_LAYER_ALPHA_OVR"@, 16);
    law_kind_ignores_case(s, "ADSK_XREC_LAYER_COLOR_OVR"@);
}

proof fn lemma_key_2(s: Seq<char>)
    requires
        eq_ci(s, "ADSK_XREC_LAYER_LINETYPE_OVR"@),
    ensures
        known_kind_of(s) == KnownXRecordKind::LayerViewportLinetypeOverride,
{
    reveal_strlit("ADSK_XREC_LAYER_LINETYPE_OVR");
    reveal_strlit("ADSK_XREC_LAYER_ALPHA_OVR");
    lemma_lengths_differ("ADSK_XREC_LAYER_LINETYPE_OVR"@, "ADSK_XREC_LAYER_ALPHA_OVR"@);
    reveal_strlit("ADSK_XREC_LAYER_COLOR_OVR");
    lemma_lengths_differ("ADSK_XREC_LAYER_LINETYPE_OVR"@, "ADSK_XREC_LAYER_COLOR_OVR"@);
    law_kind_ignores_case(s, "ADSK_XREC_LAYER_LINETYPE_OVR"@);
}

proof fn lemma_key_3(s: Seq<char>)
    requires
        eq_ci(s, "ADSK_XREC_LAYER_LINEWT_OVR"@),
    ensures
        known_kind_of(s) == KnownXRecordKind::LayerViewportLineweightOverride,
{
    reveal_strlit("ADSK_XREC_LAYER_LINEWT_OVR");
    reveal_strlit("ADSK_XREC_LAYER_ALPHA_OVR");
    lemma_lengths_differ("ADSK_XREC_LAYER_LINEWT_OVR"@, "ADSK_XREC_LAYER_ALPHA_OVR"@);
    reveal_strlit("ADSK_XREC_LAYER_COLOR_OVR");
    lemma_lengths_differ("ADSK_XREC_LAYER_LINEWT_OVR"@, "ADSK_XREC_LAYER_COLOR_OVR"@);
    reveal_strlit("ADSK_XREC_LAYER_LINETYPE_OVR");
    lemma_lengths_differ("ADSK_XREC_LAYER_LINEWT_OVR"@, "ADSK_XREC_LAYER_LINETYPE_OVR"@);
    law_kind_ignores_case(s, "ADSK_XREC_LAYER_LINEWT_OVR"@);
}

proof fn lemma_key_4(s: Seq<char>)
    requires
        eq_ci(s, "ADSK_XREC_LAYER_RECONCILED"@),
    ensures
        known_kind_of(s) == KnownXRecordKind::LayerReconciled,
{
    reveal_strlit("ADSK_XREC_LAYER_RECONCILED");
    reveal_strlit("ADSK_XREC_LAYER_ALPHA_OVR");
    lemma_lengths_differ("ADSK_XREC_LAYER_RECONCILED"@, "ADSK_XREC_LAYER_ALPHA_OVR"@);
    reveal_strlit("ADSK_XREC_LAYER_COLOR_OVR");
    lemma_lengths_differ("ADSK_XREC_LAYER_RECONCILED"@, "ADSK_XREC_LAYER_COLOR_OVR"@);
    reveal_strlit("ADSK_XREC_LAYER_LINETYPE_OVR");
    lemma_lengths_differ("ADSK_XREC_LAYER_RECONCILED"@, "ADSK_XREC_LAYER_LINETYPE_OVR"@);
    reveal_strlit("ADSK_XREC_LAYER_LINEWT_OVR");
    lemma_differ_at("ADSK_XREC_LAYER_RECONCILED"@, "ADSK_XREC_LAYER_LINEWT_OVR"@, 16);
    law_kind_ignores_case(s, "ADSK_XREC_LAYER_RECONCILED"@);
}

proof fn lemma_key_5(s: Seq<char>)
    requires
        eq_ci(s, "ACADLAYERSTATEANNOSCALE"@),
    ensures
        known_kind_of(s) == KnownXRecordKind::LayerStateAnnotationScale,
{
    reveal_strlit("ACADLAYERSTATEANNOSCALE");
    reveal_strlit("ADSK_XREC_LAYER_ALPHA_OVR");
    lemma_lengths_differ("ACADLAYERSTATEANNOSCALE"@, "ADSK_XREC_LAYER_ALPHA_OVR"@);
    reveal_strlit("ADSK_XREC_LAYER_COLOR_OVR");
    lemma_lengths_differ("ACADLAYERSTATEANNOSCALE"@, "ADSK_XREC_LAYER_COLOR_OVR"@);
    reveal_strlit("ADSK_XREC_LAYER_LINETYPE_OVR");
    lemma_lengths_differ("ACADLAYERSTATEANNOSCALE"@, "ADSK_XREC_LAYER_LINETYPE_OVR"@);
    reveal_strlit("ADSK_XREC_LAYER_LINEWT_OVR");
    lemma_lengths_differ("ACADLAYERSTATEANNOSCALE"@, "ADSK_XREC_LAYER_LINEWT_OVR"@);
    reveal_strlit("ADSK_XREC_LAYER_RECONCILED");
    lemma_lengths_differ("ACADLAYERSTATEANNOSCALE"@, "ADSK_XREC_LAYER_RECONCILED"@);
    law_kind_ignores_case(s, "ACADLAYERSTATEANNOSCALE"@);
}

proof fn lemma_key_6(s: Seq<char>)
    requires
        eq_ci(s, "ASDK_XREC_ANNOTATION_SCALE_INFO"@),
    ensures
        known_kind_of(s) == KnownXRecordKind::AnnotationScale,
{
    reveal_strlit("ASDK_XREC_ANNOTATION_SCALE_INFO");
    reveal_strlit("ADSK_XREC_LAYER_ALPHA_OVR");
    lemma_lengths_differ("ASDK_XREC_ANNOTATION_SCALE_INFO"@, "ADSK_XREC_LAYER_ALPHA_OVR"@);
    reveal_strlit("ADSK_XREC_LAYER_COLOR_OVR");
    lemma_lengths_differ("ASDK_XREC_ANNOTATION_SCALE_INFO"@, "ADSK_XREC_LAYER_COLOR_OVR"@);
    reveal_strlit("ADSK_XREC_LAYER_LINETYPE_OVR");
    lemma_lengths_differ("ASDK_XREC_ANNOTATION_SCALE_INFO"@, "ADSK_XREC_LAYER_LINETYPE_OVR"@);
    reveal_strlit("ADSK_XREC_LAYER_LINEWT_OVR");
    lemma_lengths_differ("ASDK_XREC_ANNOTATION_SCALE_INFO"@, "ADSK_XREC_LAYER_LINEWT_OVR"@);
    reveal_strlit("ADSK_XREC_LAYER_RECONCILED");
    lemma_lengths_differ("ASDK_XREC_ANNOTATION_SCALE_INFO"@, "ADSK_XREC_LAYER_RECONCILED"@);
    reveal_strlit("ACADLAYERSTATEANNOSCALE");
    lemma_lengths_differ("ASDK_XREC_ANNOTATION_SCALE_INFO"@, "ACADLAYERSTATEANNOSCALE"@);
    law_kind_ignores_case(s, "ASDK_XREC_ANNOTATION_SCALE_INFO"@);
}

proof fn lemma_key_7(s: Seq<char>)
    requires
        eq_ci(s, "ASDK_XREC_ANNO_SCALE_INFO"@),
    ensures
        known_kind_of(s) == KnownXRecordKind::AnnotationScale,
{
    reveal_strlit("ASDK_XREC_ANNO_SCALE_INFO");
    reveal_strlit("ADSK_XREC_LAYER_ALPHA_OVR");
    lemma_differ_at("ASDK_XREC_ANNO_SCALE_INFO"@, "ADSK_XREC_LAYER_ALPHA_OVR"@, 1);
    reveal_strlit("ADSK_XREC_LAYER_COLOR_OVR");
    lemma_differ_at("ASDK_XREC_ANNO_SCALE_INFO"@, "ADSK_XREC_LAYER_COLOR_OVR"@, 1);
    reveal_strlit("ADSK_XREC_LAYER_LINETYPE_OVR");
    lemma_lengths_differ("ASDK_XREC_ANNO_SCALE_INFO"@, "ADSK_XREC_LAYER_LINETYPE_OVR"@);
    reveal_strlit("ADSK_XREC_LAYER_LINEWT_OVR");
    lemma_lengths_differ("ASDK_XREC_ANNO_SCALE_INFO"@, "ADSK_XREC_LAYER_LINEWT_OVR"@);
    reveal_strlit("ADSK_XREC_LAYER_RECONCILED");
    lemma_lengths_differ("ASDK_XREC_ANNO_SCALE_INFO"@, "ADSK_XREC_LAYER_RECONCILED"@);
    reveal_strlit("ACADLAYERSTATEANNOSCALE");
    lemma_lengths_differ("ASDK_XREC_ANNO_SCALE_INFO"@, "ACADLAYERSTATEANNOSCALE"@);
    reveal_strlit("ASDK_XREC_ANNOTATION_SCALE_INFO");
    lemma_lengths_differ("ASDK_XREC_ANNO_SCALE_INFO"@, "ASDK_XREC_ANNOTATION_SCALE_INFO"@);
    law_kind_ignores_case(s, "ASDK_XREC_ANNO_SCALE_INFO"@);
}

proof fn lemma_key_8(s: Seq<char>)
    requires
        eq_ci(s, "ADSK_XREC_VTR_ANNOSCALE_DATA"@),
    ensures
        known_kind_of(s) == KnownXRecordKind::AnnotationScale,
{
    reveal_strlit("ADSK_XREC_VTR_ANNOSCALE_DATA");
    reveal_strlit("ADSK_XREC_LAYER_ALPHA_OVR");
    lemma_lengths_differ("ADSK_XREC_VTR_ANNOSCALE_DATA"@, "ADSK_XREC_LAYER_ALPHA_OVR"@);
    reveal_strlit("ADSK_XREC_LAYER_COLOR_OVR");
    lemma_lengths_differ("ADSK_XREC_VTR_ANNOSCALE_DATA"@, "ADSK_XREC_LAYER_COLOR_OVR"@);
    reveal_strlit("ADSK_XREC_LAYER_LINETYPE_OVR");
    lemma_differ_at("ADSK_XREC_VTR_ANNOSCALE_DATA"@, "ADSK_XREC_LAYER_LINETYPE_OVR"@, 10);
    reveal_strlit("ADSK_XREC_LAYER_LINEWT_OVR");
    lemma_lengths_differ("ADSK_XREC_VTR_ANNOSCALE_DATA"@, "ADSK_XREC_LAYER_LINEWT_OVR"@);
    reveal_strlit("ADSK_XREC_LAYER_RECONCILED");
    lemma_lengths_differ("ADSK_XREC_VTR_ANNOSCALE_DATA"@, "ADSK_XREC_LAYER_RECONCILED"@);
    reveal_strlit("ACADLAYERSTATEANNOSCALE");
    lemma_lengths_differ("ADSK_XREC_VTR_ANNOSCALE_DATA"@, "ACADLAYERSTATEANNOSCALE"@);
    reveal_strlit("ASDK_XREC_ANNOTATION_SCALE_INFO");
    lemma_lengths_differ("ADSK_XREC_VTR_ANNOSCALE_DATA"@, "ASDK_XREC_ANNOTATION_SCALE_INFO"@);
    reveal_strlit("ASDK_XREC_ANNO_SCALE_INFO");
    lemma_lengths_differ("ADSK_XREC_VTR_ANNOSCALE_DATA"@, "ASDK_XREC_ANNO_SCALE_INFO"@);
    law_kind_ignores_case(s, "ADSK_XREC_VTR_ANNOSCALE_DATA"@);
}

proof fn lemma_key_9(s: Seq<char>)
    requires
        eq_ci(s, "ADSK_XREC_SUBDVERTEXTEXCOORDS"@),
    ensures
        known_kind_of(s) == KnownXRecordKind::MeshTextureCoordinates,
{
    reveal_strlit("ADSK_XREC_SUBDVERTEXTEXCOORDS");
    reveal_strlit("ADSK_XREC_LAYER_ALPHA_OVR");
    lemma_lengths_differ("ADSK_XREC_SUBDVERTEXTEXCOORDS"@, "ADSK_XREC_LAYER_ALPHA_OVR"@);
    reveal_strlit("ADSK_XREC_LAYER_COLOR_OVR");
    lemma_lengths_differ("ADSK_XREC_SUBDVERTEXTEXCOORDS"@, "ADSK_XREC_LAYER_COLOR_OVR"@);
    reveal_strlit("ADSK_XREC_LAYER_LINETYPE_OVR");
    lemma_lengths_differ("ADSK_XREC_SUBDVERTEXTEXCOORDS"@, "ADSK_XREC_LAYER_LINETYPE_OVR"@);
    reveal_strlit("ADSK_XREC_LAYER_LINEWT_OVR");
    lemma_lengths_differ("ADSK_XREC_SUBDVERTEXTEXCOORDS"@, "ADSK_XREC_LAYER_LINEWT_OVR"@);
    reveal_strlit("ADSK_XREC_LAYER_RECONCILED");
    lemma_lengths_differ("ADSK_XREC_SUBDVERTEXTEXCOORDS"@, "ADSK_XREC_LAYER_RECONCILED"@);
    reveal_strlit("ACADLAYERSTATEANNOSCALE");
    lemma_lengths_differ("ADSK_XREC_SUBDVERTEXTEXCOORDS"@, "ACADLAYERSTATEANNOSCALE"@);
    reveal_strlit("ASDK_XREC_ANNOTATION_SCALE_INFO");
    lemma_lengths_differ("ADSK_XREC_SUBDVERTEXTEXCOORDS"@, "ASDK_XREC_ANNOTATION_SCALE_INFO"@);
    reveal_strlit("ASDK_XREC_ANNO_SCALE_INFO");
    lemma_lengths_differ("ADSK_XREC_SUBDVERTEXTEXCOORDS"@, "ASDK_XREC_ANNO_SCALE_INFO"@);
    reveal_strlit("ADSK_XREC_VTR_ANNOSCALE_DATA");
    lemma_lengths_differ("ADSK_XREC_SUBDVERTEXTEXCOORDS"@, "ADSK_XREC_VTR_ANNOSCALE_DATA"@);
    law_kind_ignores_case(s, "ADSK_XREC_SUBDVERTEXTEXCOORDS"@);
}

proof fn lemma_key_10(s: Seq<char>)
    requires
        eq_ci(s, "ACAD_XREC_ROUNDTRIP"@),
    ensures
        known_kind_of(s) == KnownXRecordKind::XrecordRoundTrip,
{
    reveal_strlit("ACAD_XREC_ROUNDTRIP");
    reveal_strlit("ADSK_XREC_LAYER_ALPHA_OVR");
    lemma_lengths_differ("ACAD_XREC_ROUNDTRIP"@, "ADSK_XREC_LAYER_ALPHA_OVR"@);
    reveal_strlit("ADSK_XREC_LAYER_COLOR_OVR");
    lemma_lengths_differ("ACAD_XREC_ROUNDTRIP"@, "ADSK_XREC_LAYER_COLOR_OVR"@);
    reveal_strlit("ADSK_XREC_LAYER_LINETYPE_OVR");
    lemma_lengths_differ("ACAD_XREC_ROUNDTRIP"@, "ADSK_XREC_LAYER_LINETYPE_OVR"@);
    reveal_strlit("ADSK_XREC_LAYER_LINEWT_OVR");
    lemma_lengths_differ("ACAD_XREC_ROUNDTRIP"@, "ADSK_XREC_LAYER_LINEWT_OVR"@);
    reveal_strlit("ADSK_XREC_LAYER_RECONCILED");
    lemma_lengths_differ("ACAD_XREC_ROUNDTRIP"@, "ADSK_XREC_LAYER_RECONCILED"@);
    reveal_strlit("ACADLAYERSTATEANNOSCALE");
    lemma_lengths_differ("ACAD_XREC_ROUNDTRIP"@, "ACADLAYERSTATEANNOSCALE"@);
    reveal_strlit("ASDK_XREC_ANNOTATION_SCALE_INFO");
    lemma_lengths_differ("ACAD_XREC_ROUNDTRIP"@, "ASDK_XREC_ANNOTATION_SCALE_INFO"@);
    reveal_strlit("ASDK_XREC_ANNO_SCALE_INFO");
    lemma_lengths_differ("ACAD_XREC_ROUNDTRIP"@, "ASDK_XREC_ANNO_SCALE_INFO"@);
    reveal_strlit("ADSK_XREC_VTR_ANNOSCALE_DATA");
    lemma_lengths_differ("ACAD_XREC_ROUNDTRIP"@, "ADSK_XREC_VTR_ANNOSCALE_DATA"@);
    reveal_strlit("ADSK_XREC_SUBDVERTEXTEXCOORDS");
    lemma_lengths_differ("ACAD_XREC_ROUNDTRIP"@, "ADSK_XREC_SUBDVERTEXTEXCOORDS"@);
    law_kind_ignores_case(s, "ACAD_XREC_ROUNDTRIP"@);
}

proof fn lemma_key_11(s: Seq<char>)
    requires
        eq_ci(s, "ACAD_MTEXT_RT"@),
    ensures
        known_kind_of(s) == KnownXRecordKind::MTextRoundTrip,
{
    reveal_strlit("ACAD_MTEXT_RT");
    reveal_strlit("ADSK_XREC_LAYER_ALPHA_OVR");
    lemma_lengths_differ("ACAD_MTEXT_RT"@, "ADSK_XREC_LAYER_ALPHA_OVR"@);
    reveal_strlit("ADSK_XREC_LAYER_COLOR_OVR");
    lemma_lengths_differ("ACAD_MTEXT_RT"@, "ADSK_XREC_LAYER_COLOR_OVR"@);
    reveal_strlit("ADSK_XREC_LAYER_LINETYPE_OVR");
    lemma_lengths_differ("ACAD_MTEXT_RT"@, "ADSK_XREC_LAYER_LINETYPE_OVR"@);
    reveal_strlit("ADSK_XREC_LAYER_LINEWT_OVR");
    lemma_lengths_differ("ACAD_MTEXT_RT"@, "ADSK_XREC_LAYER_LINEWT_OVR"@);
    reveal_strlit("ADSK_XREC_LAYER_RECONCILED");
    lemma_lengths_differ("ACAD_MTEXT_RT"@, "ADSK_XREC_LAYER_RECONCILED"@);
    reveal_strlit("ACADLAYERSTATEANNOSCALE");
    lemma_lengths_differ("ACAD_MTEXT_RT"@, "ACADLAYERSTATEANNOSCALE"@);
    reveal_strlit("ASDK_XREC_ANNOTATION_SCALE_INFO");
    lemma_lengths_differ("ACAD_MTEXT_RT"@, "ASDK_XREC_ANNOTATION_SCALE_INFO"@);
    reveal_strlit("ASDK_XREC_ANNO_SCALE_INFO");
    lemma_lengths_differ("ACAD_MTEXT_RT"@, "ASDK_XREC_ANNO_SCALE_INFO"@);
    reveal_strlit("ADSK_XREC_VTR_ANNOSCALE_DATA");
    lemma_lengths_differ("ACAD_MTEXT_RT"@, "ADSK_XREC_VTR_ANNOSCALE_DATA"@);
    reveal_strlit("ADSK_XREC_SUBDVERTEXTEXCOORDS");
    lemma_lengths_differ("ACAD_MTEXT_RT"@, "ADSK_XREC_SUBDVERTEXTEXCOORDS"@);
    reveal_strlit("ACAD_XREC_ROUNDTRIP");
    lemma_lengths_differ("ACAD_MTEXT_RT"@, "ACAD_XREC_ROUNDTRIP"@);
    law_kind_ignores_case(s, "ACAD_MTEXT_RT"@);
}

proof fn lemma_key_12(s: Seq<char>)
    requires
        eq_ci(s, "ACAD_MTEXT_2008_RT"@),
    ensures
        known_kind_of(s) == KnownXRecordKind::MTextRoundTrip,
{
    reveal_strlit("ACAD_MTEXT_2008_RT");
    reveal_strlit("ADSK_XREC_LAYER_ALPHA_OVR");
    lemma_lengths_differ("ACAD_MTEXT_2008_RT"@, "ADSK_XREC_LAYER_ALPHA_OVR"@);
    reveal_strlit("ADSK_XREC_LAYER_COLOR_OVR");
    lemma_lengths_differ("ACAD_MTEXT_2008_RT"@, "ADSK_XREC_LAYER_COLOR_OVR"@);
    reveal_strlit("ADSK_XREC_LAYER_LINETYPE_OVR");
    lemma_lengths_differ("ACAD_MTEXT_2008_RT"@, "ADSK_XREC_LAYER_LINETYPE_OVR"@);
    reveal_strlit("ADSK_XREC_LAYER_LINEWT_OVR");
    lemma_lengths_differ("ACAD_MTEXT_2008_RT"@, "ADSK_XREC_LAYER_LINEWT_OVR"@);
    reveal_strlit("ADSK_XREC_LAYER_RECONCILED");
    lemma_lengths_differ("ACAD_MTEXT_2008_RT"@, "ADSK_XREC_LAYER_RECONCILED"@);
    reveal_strlit("ACADLAYERSTATEANNOSCALE");
    lemma_lengths_differ("ACAD_MTEXT_2008_RT"@, "ACADLAYERSTATEANNOSCALE"@);
    reveal_strlit("ASDK_XREC_ANNOTATION_SCALE_INFO");
    lemma_lengths_differ("ACAD_MTEXT_2008_RT"@, "ASDK_XREC_ANNOTATION_SCALE_INFO"@);
    reveal_strlit("ASDK_XREC_ANNO_SCALE_INFO");
    lemma_lengths_differ("ACAD_MTEXT_2008_RT"@, "ASDK_XREC_ANNO_SCALE_INFO"@);
    reveal_strlit("ADSK_XREC_VTR_ANNOSCALE_DATA");
    lemma_lengths_differ("ACAD_MTEXT_2008_RT"@, "ADSK_XREC_VTR_ANNOSCALE_DATA"@);
    reveal_strlit("ADSK_XREC_SUBDVERTEXTEXCOORDS");
    lemma_lengths_differ("ACAD_MTEXT_2008_RT"@, "ADSK_XREC_SUBDVERTEXTEXCOORDS"@);
    reveal_strlit("ACAD_XREC_ROUNDTRIP");
    lemma_lengths_differ("ACAD_MTEXT_2008_RT"@, "ACAD_XREC_ROUNDTRIP"@);
    reveal_strlit("ACAD_MTEXT_RT");
    lemma_lengths_differ("ACAD_MTEXT_2008_RT"@, "ACAD_MTEXT_RT"@);
    law_kind_ignores_case(s, "ACAD_MTEXT_2008_RT"@);
}

proof fn lemma_key_13(s: Seq<char>)
    requires
        eq_ci(s, "ACDBHEADERROUNDTRIPXREC"@),
    ensures
        known_kind_of(s) == KnownXRecordKind::HeaderRoundTrip,
{
    reveal_strlit("ACDBHEADERROUNDTRIPXREC");
    reveal_strlit("ADSK_XREC_LAYER_ALPHA_OVR");
    lemma_lengths_differ("ACDBHEADERROUNDTRIPXREC"@, "ADSK_XREC_LAYER_ALPHA_OVR"@);
    reveal_strlit("ADSK_XREC_LAYER_COLOR_OVR");
    lemma_lengths_differ("ACDBHEADERROUNDTRIPXREC"@, "ADSK_XREC_LAYER_COLOR_OVR"@);
    reveal_strlit("ADSK_XREC_LAYER_LINETYPE_OVR");
    lemma_lengths_differ("ACDBHEADERROUNDTRIPXREC"@, "ADSK_XREC_LAYER_LINETYPE_OVR"@);
    reveal_strlit("ADSK_XREC_LAYER_LINEWT_OVR");
    lemma_lengths_differ("ACDBHEADERROUNDTRIPXREC"@, "ADSK_XREC_LAYER_LINEWT_OVR"@);
    reveal_strlit("ADSK_XREC_LAYER_RECONCILED");
    lemma_lengths_differ("ACDBHEADERROUNDTRIPXREC"@, "ADSK_XREC_LAYER_RECONCILED"@);
    reveal_strlit("ACADLAYERSTATEANNOSCALE");
    lemma_differ_at("ACDBHEADERROUNDTRIPXREC"@, "ACADLAYERSTATEANNOSCALE"@, 2);
    reveal_strlit("ASDK_XREC_ANNOTATION_SCALE_INFO");
    lemma_lengths_differ("ACDBHEADERROUNDTRIPXREC"@, "ASDK_XREC_ANNOTATION_SCALE_INFO"@);
    reveal_strlit("ASDK_XREC_ANNO_SCALE_INFO");
    lemma_lengths_differ("ACDBHEADERROUNDTRIPXREC"@, "ASDK_XREC_ANNO_SCALE_INFO"@);
    reveal_strlit("ADSK_XREC_VTR_ANNOSCALE_DATA");
    lemma_lengths_differ("ACDBHEADERROUNDTRIPXREC"@, "ADSK_XREC_VTR_ANNOSCALE_DATA"@);
    reveal_strlit("ADSK_XREC_SUBDVERTEXTEXCOORDS");
    lemma_lengths_differ("ACDBHEADERROUNDTRIPXREC"@, "ADSK_XREC_SUBDVERTEXTEXCOORDS"@);
    reveal_strlit("ACAD_XREC_ROUNDTRIP");
    lemma_lengths_differ("ACDBHEADERROUNDTRIPXREC"@, "ACAD_XREC_ROUNDTRIP"@);
    reveal_strlit("ACAD_MTEXT_RT");
    lemma_lengths_differ("ACDBHEADERROUNDTRIPXREC"@, "ACAD_MTEXT_RT"@);
    reveal_strlit("ACAD_MTEXT_2008_RT");
    lemma_lengths_differ("ACDBHEADERROUNDTRIPXREC"@, "ACAD_MTEXT_2008_RT"@);
    law_kind_ignores_case(s, "ACDBHEADERROUNDTRIPXREC"@);
}

proof fn lemma_key_14(s: Seq<char>)
    requires
        eq_ci(s, "AUXHDRRNDTRIPDATA"@),
    ensures
        known_kind_of(s) == KnownXRecordKind::HeaderRoundTrip,
{
    reveal_strlit("AUXHDRRNDTRIPDATA");
    reveal_strlit("ADSK_XREC_LAYER_ALPHA_OVR");
    lemma_lengths_differ("AUXHDRRNDTRIPDATA"@, "ADSK_XREC_LAYER_ALPHA_OVR"@);
    reveal_strlit("ADSK_XREC_LAYER_COLOR_OVR");
    lemma_lengths_differ("AUXHDRRNDTRIPDATA"@, "ADSK_XREC_LAYER_COLOR_OVR"@);
    reveal_strlit("ADSK_XREC_LAYER_LINETYPE_OVR");
    lemma_lengths_differ("AUXHDRRNDTRIPDATA"@, "ADSK_XREC_LAYER_LINETYPE_OVR"@);
    reveal_strlit("ADSK_XREC_LAYER_LINEWT_OVR");
    lemma_lengths_differ("AUXHDRRNDTRIPDATA"@, "ADSK_XREC_LAYER_LINEWT_OVR"@);
    reveal_strlit("ADSK_XREC_LAYER_RECONCILED");
    lemma_lengths_differ("AUXHDRRNDTRIPDATA"@, "ADSK_XREC_LAYER_RECONCILED"@);
    reveal_strlit("ACADLAYERSTATEANNOSCALE");
    lemma_lengths_differ("AUXHDRRNDTRIPDATA"@, "ACADLAYERSTATEANNOSCALE"@);
    reveal_strlit("ASDK_XREC_ANNOTATION_SCALE_INFO");
    lemma_lengths_differ("AUXHDRRNDTRIPDATA"@, "ASDK_XREC_ANNOTATION_SCALE_INFO"@);
    reveal_strlit("ASDK_XREC_ANNO_SCALE_INFO");
    lemma_lengths_differ("AUXHDRRNDTRIPDATA"@, "ASDK_XREC_ANNO_SCALE_INFO"@);
    reveal_strlit("ADSK_XREC_VTR_ANNOSCALE_DATA");
    lemma_lengths_differ("AUXHDRRNDTRIPDATA"@, "ADSK_XREC_VTR_ANNOSCALE_DATA"@);
    reveal_strlit("ADSK_XREC_SUBDVERTEXTEXCOORDS");
    lemma_lengths_differ("AUXHDRRNDTRIPDATA"@, "ADSK_XREC_SUBDVERTEXTEXCOORDS"@);
    reveal_strlit("ACAD_XREC_ROUNDTRIP");
    lemma_lengths_differ("AUXHDRRNDTRIPDATA"@, "ACAD_XREC_ROUNDTRIP"@);
    reveal_strlit("ACAD_MTEXT_RT");
    lemma_lengths_differ("AUXHDRRNDTRIPDATA"@, "ACAD_MTEXT_RT"@);
    reveal_strlit("ACAD_MTEXT_2008_RT");
    lemma_lengths_differ("AUXHDRRNDTRIPDATA"@, "ACAD_MTEXT_2008_RT"@);
    reveal_strlit("ACDBHEADERROUNDTRIPXREC");
    lemma_lengths_differ("AUXHDRRNDTRIPDATA"@, "ACDBHEADERROUNDTRIPXREC"@);
    law_kind_ignores_case(s, "AUXHDRRNDTRIPDATA"@);
}

proof fn lemma_key_15(s: Seq<char>)
    requires
        eq_ci(s, "ACDB_RECOMPOSE_DATA"@),
    ensures
        known_kind_of(s) == KnownXRecordKind::RecomposeData,
{
    reveal_strlit("ACDB_RECOMPOSE_DATA");
    reveal_strlit("ADSK_XREC_LAYER_ALPHA_OVR");
    lemma_lengths_differ("ACDB_RECOMPOSE_DATA"@, "ADSK_XREC_LAYER_ALPHA_OVR"@);
    reveal_strlit("ADSK_XREC_LAYER_COLOR_OVR");
    lemma_lengths_differ("ACDB_RECOMPOSE_DATA"@, "ADSK_XREC_LAYER_COLOR_OVR"@);
    reveal_strlit("ADSK_XREC_LAYER_LINETYPE_OVR");
    lemma_lengths_differ("ACDB_RECOMPOSE_DATA"@, "ADSK_XREC_LAYER_LINETYPE_OVR"@);
    reveal_strlit("ADSK_XREC_LAYER_LINEWT_OVR");
    lemma_lengths_differ("ACDB_RECOMPOSE_DATA"@, "ADSK_XREC_LAYER_LINEWT_OVR"@);
    reveal_strlit("ADSK_XREC_LAYER_RECONCILED");
    lemma_lengths_differ("ACDB_RECOMPOSE_DATA"@, "ADSK_XREC_LAYER_RECONCILED"@);
    reveal_strlit("ACADLAYERSTATEANNOSCALE");
    lemma_lengths_differ("ACDB_RECOMPOSE_DATA"@, "ACADLAYERSTATEANNOSCALE"@);
    reveal_strlit("ASDK_XREC_ANNOTATION_SCALE_INFO");
    lemma_lengths_differ("ACDB_RECOMPOSE_DATA"@, "ASDK_XREC_ANNOTATION_SCALE_INFO"@);
    reveal_strlit("ASDK_XREC_ANNO_SCALE_INFO");
    lemma_lengths_differ("ACDB_RECOMPOSE_DATA"@, "ASDK_XREC_ANNO_SCALE_INFO"@);
    reveal_strlit("ADSK_XREC_VTR_ANNOSCALE_DATA");
    lemma_lengths_differ("ACDB_RECOMPOSE_DATA"@, "ADSK_XREC_VTR_ANNOSCALE_DATA"@);
    reveal_strlit("ADSK_XREC_SUBDVERTEXTEXCOORDS");
    lemma_lengths_differ("ACDB_RECOMPOSE_DATA"@, "ADSK_XREC_SUBDVERTEXTEXCOORDS"@);
    reveal_strlit("ACAD_XREC_ROUNDTRIP");
    lemma_differ_at("ACDB_RECOMPOSE_DATA"@, "ACAD_XREC_ROUNDTRIP"@, 2);
    reveal_strlit("ACAD_MTEXT_RT");
    lemma_lengths_differ("ACDB_RECOMPOSE_DATA"@, "ACAD_MTEXT_RT"@);
    reveal_strlit("ACAD_MTEXT_2008_RT");
    lemma_lengths_differ("ACDB_RECOMPOSE_DATA"@, "ACAD_MTEXT_2008_RT"@);
    reveal_strlit("ACDBHEADERROUNDTRIPXREC");
    lemma_lengths_differ("ACDB_RECOMPOSE_DATA"@, "ACDBHEADERROUNDTRIPXREC"@);
    reveal_strlit("AUXHDRRNDTRIPDATA");
    lemma_lengths_differ("ACDB_RECOMPOSE_DATA"@, "AUXHDRRNDTRIPDATA"@);
    law_kind_ignores_case(s, "ACDB_RECOMPOSE_DATA"@);
}

proof fn lemma_key_16(s: Seq<char>)
    requires
        eq_ci(s, "ACAD_ENHANCEDBLOCKHISTORY"@),
    ensures
        known_kind_of(s) == KnownXRecordKind::DynamicBlockHistory,
{
    reveal_strlit("ACAD_ENHANCEDBLOCKHISTORY");
    reveal_strlit("ADSK_XREC_LAYER_ALPHA_OVR");
    lemma_differ_at("ACAD_ENHANCEDBLOCKHISTORY"@, "ADSK_XREC_LAYER_ALPHA_OVR"@, 1);
    reveal_strlit("ADSK_XREC_LAYER_COLOR_OVR");
    lemma_differ_at("ACAD_ENHANCEDBLOCKHISTORY"@, "ADSK_XREC_LAYER_COLOR_OVR"@, 1);
    reveal_strlit("ADSK_XREC_LAYER_LINETYPE_OVR");
    lemma_lengths_differ("ACAD_ENHANCEDBLOCKHISTORY"@, "ADSK_XREC_LAYER_LINETYPE_OVR"@);
    reveal_strlit("ADSK_XREC_LAYER_LINEWT_OVR");
    lemma_lengths_differ("ACAD_ENHANCEDBLOCKHISTORY"@, "ADSK_XREC_LAYER_LINEWT_OVR"@);
    reveal_strlit("ADSK_XREC_LAYER_RECONCILED");
    lemma_lengths_differ("ACAD_ENHANCEDBLOCKHISTORY"@, "ADSK_XREC_LAYER_RECONCILED"@);
    reveal_strlit("ACADLAYERSTATEANNOSCALE");
    lemma_lengths_differ("ACAD_ENHANCEDBLOCKHISTORY"@, "ACADLAYERSTATEANNOSCALE"@);
    reveal_strlit("ASDK_XREC_ANNOTATION_SCALE_INFO");
    lemma_lengths_differ("ACAD_ENHANCEDBLOCKHISTORY"@, "ASDK_XREC_ANNOTATION_SCALE_INFO"@);
    reveal_strlit("ASDK_XREC_ANNO_SCALE_INFO");
    lemma_differ_at("ACAD_ENHANCEDBLOCKHISTORY"@, "ASDK_XREC_ANNO_SCALE_INFO"@, 1);
    reveal_strlit("ADSK_XREC_VTR_ANNOSCALE_DATA");
    lemma_lengths_differ("ACAD_ENHANCEDBLOCKHISTORY"@, "ADSK_XREC_VTR_ANNOSCALE_DATA"@);
    reveal_strlit("ADSK_XREC_SUBDVERTEXTEXCOORDS");
    lemma_lengths_differ("ACAD_ENHANCEDBLOCKHISTORY"@, "ADSK_XREC_SUBDVERTEXTEXCOORDS"@);
    reveal_strlit("ACAD_XREC_ROUNDTRIP");
    lemma_lengths_differ("ACAD_ENHANCEDBLOCKHISTORY"@, "ACAD_XREC_ROUNDTRIP"@);
    reveal_strlit("ACAD_MTEXT_RT");
    lemma_lengths_differ("ACAD_ENHANCEDBLOCKHISTORY"@, "ACAD_MTEXT_RT"@);
    reveal_strlit("ACAD_MTEXT_2008_RT");
    lemma_lengths_differ("ACAD_ENHANCEDBLOCKHISTORY"@, "ACAD_MTEXT_2008_RT"@);
    reveal_strlit("ACDBHEADERROUNDTRIPXREC");
    lemma_lengths_differ("ACAD_ENHANCEDBLOCKHISTORY"@, "ACDBHEADERROUNDTRIPXREC"@);
    reveal_strlit("AUXHDRRNDTRIPDATA");
    lemma_lengths_differ("ACAD_ENHANCEDBLOCKHISTORY"@, "AUXHDRRNDTRIPDATA"@);
    reveal_strlit("ACDB_RECOMPOSE_DATA");
    lemma_lengths_differ("ACAD_ENHANCEDBLOCKHISTORY"@, "ACDB_RECOMPOSE_DATA"@);
    law_kind_ignores_case(s, "ACAD_ENHANCEDBLOCKHISTORY"@);
}

proof fn lemma_key_17(s: Seq<char>)
    requires
        eq_ci(s, "ASEBLOCKHIERARCHYINDEXRECORD"@),
    ensures
        known_kind_of(s) == KnownXRecordKind::DynamicBlockHistory,
{
    reveal_strlit("ASEBLOCKHIERARCHYINDEXRECORD");
    reveal_strlit("ADSK_XREC_LAYER_ALPHA_OVR");
    lemma_lengths_differ("ASEBLOCKHIERARCHYINDEXRECORD"@, "ADSK_XREC_LAYER_ALPHA_OVR"@);
    reveal_strlit("ADSK_XREC_LAYER_COLOR_OVR");
    lemma_lengths_differ("ASEBLOCKHIERARCHYINDEXRECORD"@, "ADSK_XREC_LAYER_COLOR_OVR"@);
    reveal_strlit("ADSK_XREC_LAYER_LINETYPE_OVR");
    lemma_differ_at("ASEBLOCKHIERARCHYINDEXRECORD"@, "ADSK_XREC_LAYER_LINETYPE_OVR"@, 1);
    reveal_strlit("ADSK_XREC_LAYER_LINEWT_OVR");
    lemma_lengths_differ("ASEBLOCKHIERARCHYINDEXRECORD"@, "ADSK_XREC_LAYER_LINEWT_OVR"@);
    reveal_strlit("ADSK_XREC_LAYER_RECONCILED");
    lemma_lengths_differ("ASEBLOCKHIERARCHYINDEXRECORD"@, "ADSK_XREC_LAYER_RECONCILED"@);
    reveal_strlit("ACADLAYERSTATEANNOSCALE");
    lemma_lengths_differ("ASEBLOCKHIERARCHYINDEXRECORD"@, "ACADLAYERSTATEANNOSCALE"@);
    reveal_strlit("ASDK_XREC_ANNOTATION_SCALE_INFO");
    lemma_lengths_differ("ASEBLOCKHIERARCHYINDEXRECORD"@, "ASDK_XREC_ANNOTATION_SCALE_INFO"@);
    reveal_strlit("ASDK_XREC_ANNO_SCALE_INFO");
    lemma_lengths_differ("ASEBLOCKHIERARCHYINDEXRECORD"@, "ASDK_XREC_ANNO_SCALE_INFO"@);
    reveal_strlit("ADSK_XREC_VTR_ANNOSCALE_DATA");
    lemma_differ_at("ASEBLOCKHIERARCHYINDEXRECORD"@, "ADSK_XREC_VTR_ANNOSCALE_DATA"@, 1);
    reveal_strlit("ADSK_XREC_SUBDVERTEXTEXCOORDS");
    lemma_lengths_differ("ASEBLOCKHIERARCHYINDEXRECORD"@, "ADSK_XREC_SUBDVERTEXTEXCOORDS"@);
    reveal_strlit("ACAD_XREC_ROUNDTRIP");
    lemma_lengths_differ("ASEBLOCKHIERARCHYINDEXRECORD"@, "ACAD_XREC_ROUNDTRIP"@);
    reveal_strlit("ACAD_MTEXT_RT");
    lemma_lengths_differ("ASEBLOCKHIERARCHYINDEXRECORD"@, "ACAD_MTEXT_RT"@);
    reveal_strlit("ACAD_MTEXT_2008_RT");
    lemma_lengths_differ("ASEBLOCKHIERARCHYINDEXRECORD"@, "ACAD_MTEXT_2008_RT"@);
    reveal_strlit("ACDBHEADERROUNDTRIPXREC");
    lemma_lengths_differ("ASEBLOCKHIERARCHYINDEXRECORD"@, "ACDBHEADERROUNDTRIPXREC"@);
    reveal_strlit("AUXHDRRNDTRIPDATA");
    lemma_lengths_differ("ASEBLOCKHIERARCHYINDEXRECORD"@, "AUXHDRRNDTRIPDATA"@);
    reveal_strlit("ACDB_RECOMPOSE_DATA");
    lemma_lengths_differ("ASEBLOCKHIERARCHYINDEXRECORD"@, "ACDB_RECOMPOSE_DATA"@);
    reveal_strlit("ACAD_ENHANCEDBLOCKHISTORY");
    lemma_lengths_differ("ASEBLOCKHIERARCHYINDEXRECORD"@, "ACAD_ENHANCEDBLOCKHISTORY"@);
    law_kind_ignores_case(s, "ASEBLOCKHIERARCHYINDEXRECORD"@);
}

proof fn lemma_key_18(s: Seq<char>)
    requires
        eq_ci(s, "ADSK_XREC_LAYOUTTHUMBNAIL"@),
    ensures
        known_kind_of(s) == KnownXRecordKind::LayoutThumbnail,
{
    reveal_strlit("ADSK_XREC_LAYOUTTHUMBNAIL");
    reveal_strlit("ADSK_XREC_LAYER_ALPHA_OVR");
    lemma_differ_at("ADSK_XREC_LAYOUTTHUMBNAIL"@, "ADSK_XREC_LAYER_ALPHA_OVR"@, 13);
    reveal_strlit("ADSK_XREC_LAYER_COLOR_OVR");
    lemma_differ_at("ADSK_XREC_LAYOUTTHUMBNAIL"@, "ADSK_XREC_LAYER_COLOR_OVR"@, 13);
    reveal_strlit("ADSK_XREC_LAYER_LINETYPE_OVR");
    lemma_lengths_differ("ADSK_XREC_LAYOUTTHUMBNAIL"@, "ADSK_XREC_LAYER_LINETYPE_OVR"@);
    reveal_strlit("ADSK_XREC_LAYER_LINEWT_OVR");
    lemma_lengths_differ("ADSK_XREC_LAYOUTTHUMBNAIL"@, "ADSK_XREC_LAYER_LINEWT_OVR"@);
    reveal_strlit("ADSK_XREC_LAYER_RECONCILED");
    lemma_lengths_differ("ADSK_XREC_LAYOUTTHUMBNAIL"@, "ADSK_XREC_LAYER_RECONCILED"@);
    reveal_strlit("ACADLAYERSTATEANNOSCALE");
    lemma_lengths_differ("ADSK_XREC_LAYOUTTHUMBNAIL"@, "ACADLAYERSTATEANNOSCALE"@);
    reveal_strlit("ASDK_XREC_ANNOTATION_SCALE_INFO");
    lemma_lengths_differ("ADSK_XREC_LAYOUTTHUMBNAIL"@, "ASDK_XREC_ANNOTATION_SCALE_INFO"@);
    reveal_strlit("ASDK_XREC_ANNO_SCALE_INFO");
    lemma_differ_at("ADSK_XREC_LAYOUTTHUMBNAIL"@, "ASDK_XREC_ANNO_SCALE_INFO"@, 1);
    reveal_strlit("ADSK_XREC_VTR_ANNOSCALE_DATA");
    lemma_lengths_differ("ADSK_XREC_LAYOUTTHUMBNAIL"@, "ADSK_XREC_VTR_ANNOSCALE_DATA"@);
    reveal_strlit("ADSK_XREC_SUBDVERTEXTEXCOORDS");
    lemma_lengths_differ("ADSK_XREC_LAYOUTTHUMBNAIL"@, "ADSK_XREC_SUBDVERTEXTEXCOORDS"@);
    reveal_strlit("ACAD_XREC_ROUNDTRIP");
    lemma_lengths_differ("ADSK_XREC_LAYOUTTHUMBNAIL"@, "ACAD_XREC_ROUNDTRIP"@);
    reveal_strlit("ACAD_MTEXT_RT");
    lemma_lengths_differ("ADSK_XREC_LAYOUTTHUMBNAIL"@, "ACAD_MTEXT_RT"@);
    reveal_strlit("ACAD_MTEXT_2008_RT");
    lemma_lengths_differ("ADSK_XREC_LAYOUTTHUMBNAIL"@, "ACAD_MTEXT_2008_RT"@);
    reveal_strlit("ACDBHEADERROUNDTRIPXREC");
    lemma_lengths_differ("ADSK_XREC_LAYOUTTHUMBNAIL"@, "ACDBHEADERROUNDTRIPXREC"@);
    reveal_strlit("AUXHDRRNDTRIPDATA");
    lemma_lengths_differ("ADSK_XREC_LAYOUTTHUMBNAIL"@, "AUXHDRRNDTRIPDATA"@);
    reveal_strlit("ACDB_RECOMPOSE_DATA");
    lemma_lengths_differ("ADSK_XREC_LAYOUTTHUMBNAIL"@, "ACDB_RECOMPOSE_DATA"@);
    reveal_strlit("ACAD_ENHANCEDBLOCKHISTORY");
    lemma_differ_at("ADSK_XREC_LAYOUTTHUMBNAIL"@, "ACAD_ENHANCEDBLOCKHISTORY"@, 1);
    reveal_strlit("ASEBLOCKHIERARCHYINDEXRECORD");
    lemma_lengths_differ("ADSK_XREC_LAYOUTTHUMBNAIL"@, "ASEBLOCKHIERARCHYINDEXRECORD"@);
    law_kind_ignores_case(s, "ADSK_XREC_LAYOUTTHUMBNAIL"@);
}

proof fn lemma_key_19(s: Seq<char>)
    requires
        eq_ci(s, "ADSK_XREC_VTRANIMATIONINFO"@),
    ensures
        known_kind_of(s) == KnownXRecordKind::ViewTransition,
{
    reveal_strlit("ADSK_XREC_VTRANIMATIONINFO");
    reveal_strlit("ADSK_XREC_LAYER_ALPHA_OVR");
    lemma_lengths_differ("ADSK_XREC_VTRANIMATIONINFO"@, "ADSK_XREC_LAYER_ALPHA_OVR"@);
    reveal_strlit("ADSK_XREC_LAYER_COLOR_OVR");
    lemma_lengths_differ("ADSK_XREC_VTRANIMATIONINFO"@, "ADSK_XREC_LAYER_COLOR_OVR"@);
    reveal_strlit("ADSK_XREC_LAYER_LINETYPE_OVR");
    lemma_lengths_differ("ADSK_XREC_VTRANIMATIONINFO"@, "ADSK_XREC_LAYER_LINETYPE_OVR"@);
    reveal_strlit("ADSK_XREC_LAYER_LINEWT_OVR");
    lemma_differ_at("ADSK_XREC_VTRANIMATIONINFO"@, "ADSK_XREC_LAYER_LINEWT_OVR"@, 10);
    reveal_strlit("ADSK_XREC_LAYER_RECONCILED");
    lemma_differ_at("ADSK_XREC_VTRANIMATIONINFO"@, "ADSK_XREC_LAYER_RECONCILED"@, 10);
    reveal_strlit("ACADLAYERSTATEANNOSCALE");
    lemma_lengths_differ("ADSK_XREC_VTRANIMATIONINFO"@, "ACADLAYERSTATEANNOSCALE"@);
    reveal_strlit("ASDK_XREC_ANNOTATION_SCALE_INFO");
    lemma_lengths_differ("ADSK_XREC_VTRANIMATIONINFO"@, "ASDK_XREC_ANNOTATION_SCALE_INFO"@);
    reveal_strlit("ASDK_XREC_ANNO_SCALE_INFO");
    lemma_lengths_differ("ADSK_XREC_VTRANIMATIONINFO"@, "ASDK_XREC_ANNO_SCALE_INFO"@);
    reveal_strlit("ADSK_XREC_VTR_ANNOSCALE_DATA");
    lemma_lengths_differ("ADSK_XREC_VTRANIMATIONINFO"@, "ADSK_XREC_VTR_ANNOSCALE_DATA"@);
    reveal_strlit("ADSK_XREC_SUBDVERTEXTEXCOORDS");
    lemma_lengths_differ("ADSK_XREC_VTRANIMATIONINFO"@, "ADSK_XREC_SUBDVERTEXTEXCOORDS"@);
    reveal_strlit("ACAD_XREC_ROUNDTRIP");
    lemma_lengths_differ("ADSK_XREC_VTRANIMATIONINFO"@, "ACAD_XREC_ROUNDTRIP"@);
    reveal_strlit("ACAD_MTEXT_RT");
    lemma_lengths_differ("ADSK_XREC_VTRANIMATIONINFO"@, "ACAD_MTEXT_RT"@);
    reveal_strlit("ACAD_MTEXT_2008_RT");
    lemma_lengths_differ("ADSK_XREC_VTRANIMATIONINFO"@, "ACAD_MTEXT_2008_RT"@);
    reveal_strlit("ACDBHEADERROUNDTRIPXREC");
    lemma_lengths_differ("ADSK_XREC_VTRANIMATIONINFO"@, "ACDBHEADERROUNDTRIPXREC"@);
    reveal_strlit("AUXHDRRNDTRIPDATA");
    lemma_lengths_differ("ADSK_XREC_VTRANIMATIONINFO"@, "AUXHDRRNDTRIPDATA"@);
    reveal_strlit("ACDB_RECOMPOSE_DATA");
    lemma_lengths_differ("ADSK_XREC_VTRANIMATIONINFO"@, "ACDB_RECOMPOSE_DATA"@);
    reveal_strlit("ACAD_ENHANCEDBLOCKHISTORY");
    lemma_lengths_differ("ADSK_XREC_VTRANIMATIONINFO"@, "ACAD_ENHANCEDBLOCKHISTORY"@);
    reveal_strlit("ASEBLOCKHIERARCHYINDEXRECORD");
    lemma_lengths_differ("ADSK_XREC_VTRANIMATIONINFO"@, "ASEBLOCKHIERARCHYINDEXRECORD"@);
    reveal_strlit("ADSK_XREC_LAYOUTTHUMBNAIL");
    lemma_lengths_differ("ADSK_XREC_VTRANIMATIONINFO"@, "ADSK_XREC_LAYOUTTHUMBNAIL"@);
    law_kind_ignores_case(s, "ADSK_XREC_VTRANIMATIONINFO"@);
}

proof fn lemma_key_20(s: Seq<char>)
    requires
        eq_ci(s, "ADSK_XREC_VTRTHUMBNAIL"@),
    ensures
        known_kind_of(s) == KnownXRecordKind::ViewTransition,
{
    reveal_strlit("ADSK_XREC_VTRTHUMBNAIL");
    reveal_strlit("ADSK_XREC_LAYER_ALPHA_OVR");
    lemma_lengths_differ("ADSK_XREC_VTRTHUMBNAIL"@, "ADSK_XREC_LAYER_ALPHA_OVR"@);
    reveal_strlit("ADSK_XREC_LAYER_COLOR_OVR");
    lemma_lengths_differ("ADSK_XREC_VTRTHUMBNAIL"@, "ADSK_XREC_LAYER_COLOR_OVR"@);
    reveal_strlit("ADSK_XREC_LAYER_LINETYPE_OVR");
    lemma_lengths_differ("ADSK_XREC_VTRTHUMBNAIL"@, "ADSK_XREC_LAYER_LINETYPE_OVR"@);
    reveal_strlit("ADSK_XREC_LAYER_LINEWT_OVR");
    lemma_lengths_differ("ADSK_XREC_VTRTHUMBNAIL"@, "ADSK_XREC_LAYER_LINEWT_OVR"@);
    reveal_strlit("ADSK_XREC_LAYER_RECONCILED");
    lemma_lengths_differ("ADSK_XREC_VTRTHUMBNAIL"@, "ADSK_XREC_LAYER_RECONCILED"@);
    reveal_strlit("ACADLAYERSTATEANNOSCALE");
    lemma_lengths_differ("ADSK_XREC_VTRTHUMBNAIL"@, "ACADLAYERSTATEANNOSCALE"@);
    reveal_strlit("ASDK_XREC_ANNOTATION_SCALE_INFO");
    lemma_lengths_differ("ADSK_XREC_VTRTHUMBNAIL"@, "ASDK_XREC_ANNOTATION_SCALE_INFO"@);
    reveal_strlit("ASDK_XREC_ANNO_SCALE_INFO");
    lemma_lengths_differ("ADSK_XREC_VTRTHUMBNAIL"@, "ASDK_XREC_ANNO_SCALE_INFO"@);
    reveal_strlit("ADSK_XREC_VTR_ANNOSCALE_DATA");
    lemma_lengths_differ("ADSK_XREC_VTRTHUMBNAIL"@, "ADSK_XREC_VTR_ANNOSCALE_DATA"@);
    reveal_strlit("ADSK_XREC_SUBDVERTEXTEXCOORDS");
    lemma_lengths_differ("ADSK_XREC_VTRTHUMBNAIL"@, "ADSK_XREC_SUBDVERTEXTEXCOORDS"@);
    reveal_strlit("ACAD_XREC_ROUNDTRIP");
    lemma_lengths_differ("ADSK_XREC_VTRTHUMBNAIL"@, "ACAD_XREC_ROUNDTRIP"@);
    reveal_strlit("ACAD_MTEXT_RT");
    lemma_lengths_differ("ADSK_XREC_VTRTHUMBNAIL"@, "ACAD_MTEXT_RT"@);
    reveal_strlit("ACAD_MTEXT_2008_RT");
    lemma_lengths_differ("ADSK_XREC_VTRTHUMBNAIL"@, "ACAD_MTEXT_2008_RT"@);
    reveal_strlit("ACDBHEADERROUNDTRIPXREC");
    lemma_lengths_differ("ADSK_XREC_VTRTHUMBNAIL"@, "ACDBHEADERROUNDTRIPXREC"@);
    reveal_strlit("AUXHDRRNDTRIPDATA");
    lemma_lengths_differ("ADSK_XREC_VTRTHUMBNAIL"@, "AUXHDRRNDTRIPDATA"@);
    reveal_strlit("ACDB_RECOMPOSE_DATA");
    lemma_lengths_differ("ADSK_XREC_VTRTHUMBNAIL"@, "ACDB_RECOMPOSE_DATA"@);
    reveal_strlit("ACAD_ENHANCEDBLOCKHISTORY");
    lemma_lengths_differ("ADSK_XREC_VTRTHUMBNAIL"@, "ACAD_ENHANCEDBLOCKHISTORY"@);
    reveal_strlit("ASEBLOCKHIERARCHYINDEXRECORD");
    lemma_lengths_differ("ADSK_XREC_VTRTHUMBNAIL"@, "ASEBLOCKHIERARCHYINDEXRECORD"@);
    reveal_strlit("ADSK_XREC_LAYOUTTHUMBNAIL");
    lemma_lengths_differ("ADSK_XREC_VTRTHUMBNAIL"@, "ADSK_XREC_LAYOUTTHUMBNAIL"@);
    reveal_strlit("ADSK_XREC_VTRANIMATIONINFO");
    lemma_lengths_differ("ADSK_XREC_VTRTHUMBNAIL"@, "ADSK_XREC_VTRANIMATIONINFO"@);
    law_kind_ignores_case(s, "ADSK_XREC_VTRTHUMBNAIL"@);
}

proof fn lemma_key_21(s: Seq<char>)
    requires
        eq_ci(s, "ADSK_XREC_VTRVIEWINFO"@),
    ensures
        known_kind_of(s) == KnownXRecordKind::ViewTransition,
{
    reveal_strlit("ADSK_XREC_VTRVIEWINFO");
    reveal_strlit("ADSK_XREC_LAYER_ALPHA_OVR");
    lemma_lengths_differ("ADSK_XREC_VTRVIEWINFO"@, "ADSK_XREC_LAYER_ALPHA_OVR"@);
    reveal_strlit("ADSK_XREC_LAYER_COLOR_OVR");
    lemma_lengths_differ("ADSK_XREC_VTRVIEWINFO"@, "ADSK_XREC_LAYER_COLOR_OVR"@);
    reveal_strlit("ADSK_XREC_LAYER_LINETYPE_OVR");
    lemma_lengths_differ("ADSK_XREC_VTRVIEWINFO"@, "ADSK_XREC_LAYER_LINETYPE_OVR"@);
    reveal_strlit("ADSK_XREC_LAYER_LINEWT_OVR");
    lemma_lengths_differ("ADSK_XREC_VTRVIEWINFO"@, "ADSK_XREC_LAYER_LINEWT_OVR"@);
    reveal_strlit("ADSK_XREC_LAYER_RECONCILED");
    lemma_lengths_differ("ADSK_XREC_VTRVIEWINFO"@, "ADSK_XREC_LAYER_RECONCILED"@);
    reveal_strlit("ACADLAYERSTATEANNOSCALE");
    lemma_lengths_differ("ADSK_XREC_VTRVIEWINFO"@, "ACADLAYERSTATEANNOSCALE"@);
    reveal_strlit("ASDK_XREC_ANNOTATION_SCALE_INFO");
    lemma_lengths_differ("ADSK_XREC_VTRVIEWINFO"@, "ASDK_XREC_ANNOTATION_SCALE_INFO"@);
    reveal_strlit("ASDK_XREC_ANNO_SCALE_INFO");
    lemma_lengths_differ("ADSK_XREC_VTRVIEWINFO"@, "ASDK_XREC_ANNO_SCALE_INFO"@);
    reveal_strlit("ADSK_XREC_VTR_ANNOSCALE_DATA");
    lemma_lengths_differ("ADSK_XREC_VTRVIEWINFO"@, "ADSK_XREC_VTR_ANNOSCALE_DATA"@);
    reveal_strlit("ADSK_XREC_SUBDVERTEXTEXCOORDS");
    lemma_lengths_differ("ADSK_XREC_VTRVIEWINFO"@, "ADSK_XREC_SUBDVERTEXTEXCOORDS"@);
    reveal_strlit("ACAD_XREC_ROUNDTRIP");
    lemma_lengths_differ("ADSK_XREC_VTRVIEWINFO"@, "ACAD_XREC_ROUNDTRIP"@);
    reveal_strlit("ACAD_MTEXT_RT");
    lemma_lengths_differ("ADSK_XREC_VTRVIEWINFO"@, "ACAD_MTEXT_RT"@);
    reveal_strlit("ACAD_MTEXT_2008_RT");
    lemma_lengths_differ("ADSK_XREC_VTRVIEWINFO"@, "ACAD_MTEXT_2008_RT"@);
    reveal_strlit("ACDBHEADERROUNDTRIPXREC");
    lemma_lengths_differ("ADSK_XREC_VTRVIEWINFO"@, "ACDBHEADERROUNDTRIPXREC"@);
    reveal_strlit("AUXHDRRNDTRIPDATA");
    lemma_lengths_differ("ADSK_XREC_VTRVIEWINFO"@, "AUXHDRRNDTRIPDATA"@);
    reveal_strlit("ACDB_RECOMPOSE_DATA");
    lemma_lengths_differ("ADSK_XREC_VTRVIEWINFO"@, "ACDB_RECOMPOSE_DATA"@);
    reveal_strlit("ACAD_ENHANCEDBLOCKHISTORY");
    lemma_lengths_differ("ADSK_XREC_VTRVIEWINFO"@, "ACAD_ENHANCEDBLOCKHISTORY"@);
    reveal_strlit("ASEBLOCKHIERARCHYINDEXRECORD");
    lemma_lengths_differ("ADSK_XREC_VTRVIEWINFO"@, "ASEBLOCKHIERARCHYINDEXRECORD"@);
    reveal_strlit("ADSK_XREC_LAYOUTTHUMBNAIL");
    lemma_lengths_differ("ADSK_XREC_VTRVIEWINFO"@, "ADSK_XREC_LAYOUTTHUMBNAIL"@);
    reveal_strlit("ADSK_XREC_VTRANIMATIONINFO");
    lemma_lengths_differ("ADSK_XREC_VTRVIEWINFO"@, "ADSK_XREC_VTRANIMATIONINFO"@);
    reveal_strlit("ADSK_XREC_VTRTHUMBNAIL");
    lemma_lengths_differ("ADSK_XREC_VTRVIEWINFO"@, "ADSK_XREC_VTRTHUMBNAIL"@);
    law_kind_ignores_case(s, "ADSK_XREC_VTRVIEWINFO"@);
}

proof fn lemma_key_22(s: Seq<char>)
    requires
        eq_ci(s, "ADSK_XREC_PHOTOMETRICLIGHTINFO"@),
    ensures
        known_kind_of(s) == KnownXRecordKind::PhotometricLight,
{
    reveal_strlit("ADSK_XREC_PHOTOMETRICLIGHTINFO");
    reveal_strlit("ADSK_XREC_LAYER_ALPHA_OVR");
    lemma_lengths_differ("ADSK_XREC_PHOTOMETRICLIGHTINFO"@, "ADSK_XREC_LAYER_ALPHA_OVR"@);
    reveal_strlit("ADSK_XREC_LAYER_COLOR_OVR");
    lemma_lengths_differ("ADSK_XREC_PHOTOMETRICLIGHTINFO"@, "ADSK_XREC_LAYER_COLOR_OVR"@);
    reveal_strlit("ADSK_XREC_LAYER_LINETYPE_OVR");
    lemma_lengths_differ("ADSK_XREC_PHOTOMETRICLIGHTINFO"@, "ADSK_XREC_LAYER_LINETYPE_OVR"@);
    reveal_strlit("ADSK_XREC_LAYER_LINEWT_OVR");
    lemma_lengths_differ("ADSK_XREC_PHOTOMETRICLIGHTINFO"@, "ADSK_XREC_LAYER_LINEWT_OVR"@);
    reveal_strlit("ADSK_XREC_LAYER_RECONCILED");
    lemma_lengths_differ("ADSK_XREC_PHOTOMETRICLIGHTINFO"@, "ADSK_XREC_LAYER_RECONCILED"@);
    reveal_strlit("ACADLAYERSTATEANNOSCALE");
    lemma_lengths_differ("ADSK_XREC_PHOTOMETRICLIGHTINFO"@, "ACADLAYERSTATEANNOSCALE"@);
    reveal_strlit("ASDK_XREC_ANNOTATION_SCALE_INFO");
    lemma_lengths_differ("ADSK_XREC_PHOTOMETRICLIGHTINFO"@, "ASDK_XREC_ANNOTATION_SCALE_INFO"@);
    reveal_strlit("ASDK_XREC_ANNO_SCALE_INFO");
    lemma_lengths_differ("ADSK_XREC_PHOTOMETRICLIGHTINFO"@, "ASDK_XREC_ANNO_SCALE_INFO"@);
    reveal_strlit("ADSK_XREC_VTR_ANNOSCALE_DATA");
    lemma_lengths_differ("ADSK_XREC_PHOTOMETRICLIGHTINFO"@, "ADSK_XREC_VTR_ANNOSCALE_DATA"@);
    reveal_strlit("ADSK_XREC_SUBDVERTEXTEXCOORDS");
    lemma_lengths_differ("ADSK_XREC_PHOTOMETRICLIGHTINFO"@, "ADSK_XREC_SUBDVERTEXTEXCOORDS"@);
    reveal_strlit("ACAD_XREC_ROUNDTRIP");
    lemma_lengths_differ("ADSK_XREC_PHOTOMETRICLIGHTINFO"@, "ACAD_XREC_ROUNDTRIP"@);
    reveal_strlit("ACAD_MTEXT_RT");
    lemma_lengths_differ("ADSK_XREC_PHOTOMETRICLIGHTINFO"@, "ACAD_MTEXT_RT"@);
    reveal_strlit("ACAD_MTEXT_2008_RT");
    lemma_lengths_differ("ADSK_XREC_PHOTOMETRICLIGHTINFO"@, "ACAD_MTEXT_2008_RT"@);
    reveal_strlit("ACDBHEADERROUNDTRIPXREC");
    lemma_lengths_differ("ADSK_XREC_PHOTOMETRICLIGHTINFO"@, "ACDBHEADERROUNDTRIPXREC"@);
    reveal_strlit("AUXHDRRNDTRIPDATA");
    lemma_lengths_differ("ADSK_XREC_PHOTOMETRICLIGHTINFO"@, "AUXHDRRNDTRIPDATA"@);
    reveal_strlit("ACDB_RECOMPOSE_DATA");
    lemma_lengths_differ("ADSK_XREC_PHOTOMETRICLIGHTINFO"@, "ACDB_RECOMPOSE_DATA"@);
    reveal_strlit("ACAD_ENHANCEDBLOCKHISTORY");
    lemma_lengths_differ("ADSK_XREC_PHOTOMETRICLIGHTINFO"@, "ACAD_ENHANCEDBLOCKHISTORY"@);
    reveal_strlit("ASEBLOCKHIERARCHYINDEXRECORD");
    lemma_lengths_differ("ADSK_XREC_PHOTOMETRICLIGHTINFO"@, "ASEBLOCKHIERARCHYINDEXRECORD"@);
    reveal_strlit("ADSK_XREC_LAYOUTTHUMBNAIL");
    lemma_lengths_differ("ADSK_XREC_PHOTOMETRICLIGHTINFO"@, "ADSK_XREC_LAYOUTTHUMBNAIL"@);
    reveal_strlit("ADSK_XREC_VTRANIMATIONINFO");
    lemma_lengths_differ("ADSK_XREC_PHOTOMETRICLIGHTINFO"@, "ADSK_XREC_VTRANIMATIONINFO"@);
    reveal_strlit("ADSK_XREC_VTRTHUMBNAIL");
    lemma_lengths_differ("ADSK_XREC_PHOTOMETRICLIGHTINFO"@, "ADSK_XREC_VTRTHUMBNAIL"@);
    reveal_strlit("ADSK_XREC_VTRVIEWINFO");
    lemma_lengths_differ("ADSK_XREC_PHOTOMETRICLIGHTINFO"@, "ADSK_XREC_VTRVIEWINFO"@);
    law_kind_ignores_case(s, "ADSK_XREC_PHOTOMETRICLIGHTINFO"@);
}

proof fn lemma_key_23(s: Seq<char>)
    requires
        eq_ci(s, "LIGHTINGQUALITY"@),
    ensures
        known_kind_of(s) == KnownXRecordKind::PhotometricLight,
{
    reveal_strlit("LIGHTINGQUALITY");
    reveal_strlit("ADSK_XREC_LAYER_ALPHA_OVR");
    lemma_lengths_differ("LIGHTINGQUALITY"@, "ADSK_XREC_LAYER_ALPHA_OVR"@);
    reveal_strlit("ADSK_XREC_LAYER_COLOR_OVR");
    lemma_lengths_differ("LIGHTINGQUALITY"@, "ADSK_XREC_LAYER_COLOR_OVR"@);
    reveal_strlit("ADSK_XREC_LAYER_LINETYPE_OVR");
    lemma_lengths_differ("LIGHTINGQUALITY"@, "ADSK_XREC_LAYER_LINETYPE_OVR"@);
    reveal_strlit("ADSK_XREC_LAYER_LINEWT_OVR");
    lemma_lengths_differ("LIGHTINGQUALITY"@, "ADSK_XREC_LAYER_LINEWT_OVR"@);
    reveal_strlit("ADSK_XREC_LAYER_RECONCILED");
    lemma_lengths_differ("LIGHTINGQUALITY"@, "ADSK_XREC_LAYER_RECONCILED"@);
    reveal_strlit("ACADLAYERSTATEANNOSCALE");
    lemma_lengths_differ("LIGHTINGQUALITY"@, "ACADLAYERSTATEANNOSCALE"@);
    reveal_strlit("ASDK_XREC_ANNOTATION_SCALE_INFO");
    lemma_lengths_differ("LIGHTINGQUALITY"@, "ASDK_XREC_ANNOTATION_SCALE_INFO"@);
    reveal_strlit("ASDK_XREC_ANNO_SCALE_INFO");
    lemma_lengths_differ("LIGHTINGQUALITY"@, "ASDK_XREC_ANNO_SCALE_INFO"@);
    reveal_strlit("ADSK_XREC_VTR_ANNOSCALE_DATA");
    lemma_lengths_differ("LIGHTINGQUALITY"@, "ADSK_XREC_VTR_ANNOSCALE_DATA"@);
    reveal_strlit("ADSK_XREC_SUBDVERTEXTEXCOORDS");
    lemma_lengths_differ("LIGHTINGQUALITY"@, "ADSK_XREC_SUBDVERTEXTEXCOORDS"@);
    reveal_strlit("ACAD_XREC_ROUNDTRIP");
    lemma_lengths_differ("LIGHTINGQUALITY"@, "ACAD_XREC_ROUNDTRIP"@);
    reveal_strlit("ACAD_MTEXT_RT");
    lemma_lengths_differ("LIGHTINGQUALITY"@, "ACAD_MTEXT_RT"@);
    reveal_strlit("ACAD_MTEXT_2008_RT");
    lemma_lengths_differ("LIGHTINGQUALITY"@, "ACAD_MTEXT_2008_RT"@);
    reveal_strlit("ACDBHEADERROUNDTRIPXREC");
    lemma_lengths_differ("LIGHTINGQUALITY"@, "ACDBHEADERROUNDTRIPXREC"@);
    reveal_strlit("AUXHDRRNDTRIPDATA");
    lemma_lengths_differ("LIGHTINGQUALITY"@, "AUXHDRRNDTRIPDATA"@);
    reveal_strlit("ACDB_RECOMPOSE_DATA");
    lemma_lengths_differ("LIGHTINGQUALITY"@, "ACDB_RECOMPOSE_DATA"@);
    reveal_strlit("ACAD_ENHANCEDBLOCKHISTORY");
    lemma_lengths_differ("LIGHTINGQUALITY"@, "ACAD_ENHANCEDBLOCKHISTORY"@);
    reveal_strlit("ASEBLOCKHIERARCHYINDEXRECORD");
    lemma_lengths_differ("LIGHTINGQUALITY"@, "ASEBLOCKHIERARCHYINDEXRECORD"@);
    reveal_strlit("ADSK_XREC_LAYOUTTHUMBNAIL");
    lemma_lengths_differ("LIGHTINGQUALITY"@, "ADSK_XREC_LAYOUTTHUMBNAIL"@);
    reveal_strlit("ADSK_XREC_VTRANIMATIONINFO");
    lemma_lengths_differ("LIGHTINGQUALITY"@, "ADSK_XREC_VTRANIMATIONINFO"@);
    reveal_strlit("ADSK_XREC_VTRTHUMBNAIL");
    lemma_lengths_differ("LIGHTINGQUALITY"@, "ADSK_XREC_VTRTHUMBNAIL"@);
    reveal_strlit("ADSK_XREC_VTRVIEWINFO");
    lemma_lengths_differ("LIGHTINGQUALITY"@, "ADSK_XREC_VTRVIEWINFO"@);
    reveal_strlit("ADSK_XREC_PHOTOMETRICLIGHTINFO");
    lemma_lengths_differ("LIGHTINGQUALITY"@, "ADSK_XREC_PHOTOMETRICLIGHTINFO"@);
    law_kind_ignores_case(s, "LIGHTINGQUALITY"@);
}

proof fn lemma_key_24(s: Seq<char>)
    requires
        eq_ci(s, "ACAD_LAST_SAVED_VERSION_INFO"@),
    ensures
        known_kind_of(s) == KnownXRecordKind::LastSavedVersion,
{
    reveal_strlit("ACAD_LAST_SAVED_VERSION_INFO");
    reveal_strlit("ADSK_XREC_LAYER_ALPHA_OVR");
    lemma_lengths_differ("ACAD_LAST_SAVED_VERSION_INFO"@, "ADSK_XREC_LAYER_ALPHA_OVR"@);
    reveal_strlit("ADSK_XREC_LAYER_COLOR_OVR");
    lemma_lengths_differ("ACAD_LAST_SAVED_VERSION_INFO"@, "ADSK_XREC_LAYER_COLOR_OVR"@);
    reveal_strlit("ADSK_XREC_LAYER_LINETYPE_OVR");
    lemma_differ_at("ACAD_LAST_SAVED_VERSION_INFO"@, "ADSK_XREC_LAYER_LINETYPE_OVR"@, 1);
    reveal_strlit("ADSK_XREC_LAYER_LINEWT_OVR");
    lemma_lengths_differ("ACAD_LAST_SAVED_VERSION_INFO"@, "ADSK_XREC_LAYER_LINEWT_OVR"@);
    reveal_strlit("ADSK_XREC_LAYER_RECONCILED");
    lemma_lengths_differ("ACAD_LAST_SAVED_VERSION_INFO"@, "ADSK_XREC_LAYER_RECONCILED"@);
    reveal_strlit("ACADLAYERSTATEANNOSCALE");
    lemma_lengths_differ("ACAD_LAST_SAVED_VERSION_INFO"@, "ACADLAYERSTATEANNOSCALE"@);
    reveal_strlit("ASDK_XREC_ANNOTATION_SCALE_INFO");
    lemma_lengths_differ("ACAD_LAST_SAVED_VERSION_INFO"@, "ASDK_XREC_ANNOTATION_SCALE_INFO"@);
    reveal_strlit("ASDK_XREC_ANNO_SCALE_INFO");
    lemma_lengths_differ("ACAD_LAST_SAVED_VERSION_INFO"@, "ASDK_XREC_ANNO_SCALE_INFO"@);
    reveal_strlit("ADSK_XREC_VTR_ANNOSCALE_DATA");
    lemma_differ_at("ACAD_LAST_SAVED_VERSION_INFO"@, "ADSK_XREC_VTR_ANNOSCALE_DATA"@, 1);
    reveal_strlit("ADSK_XREC_SUBDVERTEXTEXCOORDS");
    lemma_lengths_differ("ACAD_LAST_SAVED_VERSION_INFO"@, "ADSK_XREC_SUBDVERTEXTEXCOORDS"@);
    reveal_strlit("ACAD_XREC_ROUNDTRIP");
    lemma_lengths_differ("ACAD_LAST_SAVED_VERSION_INFO"@, "ACAD_XREC_ROUNDTRIP"@);
    reveal_strlit("ACAD_MTEXT_RT");
    lemma_lengths_differ("ACAD_LAST_SAVED_VERSION_INFO"@, "ACAD_MTEXT_RT"@);
    reveal_strlit("ACAD_MTEXT_2008_RT");
    lemma_lengths_differ("ACAD_LAST_SAVED_VERSION_INFO"@, "ACAD_MTEXT_2008_RT"@);
    reveal_strlit("ACDBHEADERROUNDTRIPXREC");
    lemma_lengths_differ("ACAD_LAST_SAVED_VERSION_INFO"@, "ACDBHEADERROUNDTRIPXREC"@);
    reveal_strlit("AUXHDRRNDTRIPDATA");
    lemma_lengths_differ("ACAD_LAST_SAVED_VERSION_INFO"@, "AUXHDRRNDTRIPDATA"@);
    reveal_strlit("ACDB_RECOMPOSE_DATA");
    lemma_lengths_differ("ACAD_LAST_SAVED_VERSION_INFO"@, "ACDB_RECOMPOSE_DATA"@);
    reveal_strlit("ACAD_ENHANCEDBLOCKHISTORY");
    lemma_lengths_differ("ACAD_LAST_SAVED_VERSION_INFO"@, "ACAD_ENHANCEDBLOCKHISTORY"@);
    reveal_strlit("ASEBLOCKHIERARCHYINDEXRECORD");
    lemma_differ_at("ACAD_LAST_SAVED_VERSION_INFO"@, "ASEBLOCKHIERARCHYINDEXRECORD"@, 1);
    reveal_strlit("ADSK_XREC_LAYOUTTHUMBNAIL");
    lemma_lengths_differ("ACAD_LAST_SAVED_VERSION_INFO"@, "ADSK_XREC_LAYOUTTHUMBNAIL"@);
    reveal_strlit("ADSK_XREC_VTRANIMATIONINFO");
    lemma_lengths_differ("ACAD_LAST_SAVED_VERSION_INFO"@, "ADSK_XREC_VTRANIMATIONINFO"@);
    reveal_strlit("ADSK_XREC_VTRTHUMBNAIL");
    lemma_lengths_differ("ACAD_LAST_SAVED_VERSION_INFO"@, "ADSK_XREC_VTRTHUMBNAIL"@);
    reveal_strlit("ADSK_XREC_VTRVIEWINFO");
    lemma_lengths_differ("ACAD_LAST_SAVED_VERSION_INFO"@, "ADSK_XREC_VTRVIEWINFO"@);
    reveal_strlit("ADSK_XREC_PHOTOMETRICLIGHTINFO");
    lemma_lengths_differ("ACAD_LAST_SAVED_VERSION_INFO"@, "ADSK_XREC_PHOTOMETRICLIGHTINFO"@);
    reveal_strlit("LIGHTINGQUALITY");
    lemma_lengths_differ("ACAD_LAST_SAVED_VERSION_INFO"@, "LIGHTINGQUALITY"@);
    law_kind_ignores_case(s, "ACAD_LAST_SAVED_VERSION_INFO"@);
}

proof fn lemma_key_25(s: Seq<char>)
    requires
        eq_ci(s, "ACAD_CIP_PREVIOUS_PRODUCT_INFO"@),
    ensures
        known_kind_of(s) == KnownXRecordKind::PreviousProductInfo,
{
    reveal_strlit("ACAD_CIP_PREVIOUS_PRODUCT_INFO");
    reveal_strlit("ADSK_XREC_LAYER_ALPHA_OVR");
    lemma_lengths_differ("ACAD_CIP_PREVIOUS_PRODUCT_INFO"@, "ADSK_XREC_LAYER_ALPHA_OVR"@);
    reveal_strlit("ADSK_XREC_LAYER_COLOR_OVR");
    lemma_lengths_differ("ACAD_CIP_PREVIOUS_PRODUCT_INFO"@, "ADSK_XREC_LAYER_COLOR_OVR"@);
    reveal_strlit("ADSK_XREC_LAYER_LINETYPE_OVR");
    lemma_lengths_differ("ACAD_CIP_PREVIOUS_PRODUCT_INFO"@, "ADSK_XREC_LAYER_LINETYPE_OVR"@);
    reveal_strlit("ADSK_XREC_LAYER_LINEWT_OVR");
    lemma_lengths_differ("ACAD_CIP_PREVIOUS_PRODUCT_INFO"@, "ADSK_XREC_LAYER_LINEWT_OVR"@);
    reveal_strlit("ADSK_XREC_LAYER_RECONCILED");
    lemma_lengths_differ("ACAD_CIP_PREVIOUS_PRODUCT_INFO"@, "ADSK_XREC_LAYER_RECONCILED"@);
    reveal_strlit("ACADLAYERSTATEANNOSCALE");
    lemma_lengths_differ("ACAD_CIP_PREVIOUS_PRODUCT_INFO"@, "ACADLAYERSTATEANNOSCALE"@);
    reveal_strlit("ASDK_XREC_ANNOTATION_SCALE_INFO");
    lemma_lengths_differ("ACAD_CIP_PREVIOUS_PRODUCT_INFO"@, "ASDK_XREC_ANNOTATION_SCALE_INFO"@);
    reveal_strlit("ASDK_XREC_ANNO_SCALE_INFO");
    lemma_lengths_differ("ACAD_CIP_PREVIOUS_PRODUCT_INFO"@, "ASDK_XREC_ANNO_SCALE_INFO"@);
    reveal_strlit("ADSK_XREC_VTR_ANNOSCALE_DATA");
    lemma_lengths_differ("ACAD_CIP_PREVIOUS_PRODUCT_INFO"@, "ADSK_XREC_VTR_ANNOSCALE_DATA"@);
    reveal_strlit("ADSK_XREC_SUBDVERTEXTEXCOORDS");
    lemma_lengths_differ("ACAD_CIP_PREVIOUS_PRODUCT_INFO"@, "ADSK_XREC_SUBDVERTEXTEXCOORDS"@);
    reveal_strlit("ACAD_XREC_ROUNDTRIP");
    lemma_lengths_differ("ACAD_CIP_PREVIOUS_PRODUCT_INFO"@, "ACAD_XREC_ROUNDTRIP"@);
    reveal_strlit("ACAD_MTEXT_RT");
    lemma_lengths_differ("ACAD_CIP_PREVIOUS_PRODUCT_INFO"@, "ACAD_MTEXT_RT"@);
    reveal_strlit("ACAD_MTEXT_2008_RT");
    lemma_lengths_differ("ACAD_CIP_PREVIOUS_PRODUCT_INFO"@, "ACAD_MTEXT_2008_RT"@);
    reveal_strlit("ACDBHEADERROUNDTRIPXREC");
    lemma_lengths_differ("ACAD_CIP_PREVIOUS_PRODUCT_INFO"@, "ACDBHEADERROUNDTRIPXREC"@);
    reveal_strlit("AUXHDRRNDTRIPDATA");
    lemma_lengths_differ("ACAD_CIP_PREVIOUS_PRODUCT_INFO"@, "AUXHDRRNDTRIPDATA"@);
    reveal_strlit("ACDB_RECOMPOSE_DATA");
    lemma_lengths_differ("ACAD_CIP_PREVIOUS_PRODUCT_INFO"@, "ACDB_RECOMPOSE_DATA"@);
    reveal_strlit("ACAD_ENHANCEDBLOCKHISTORY");
    lemma_lengths_differ("ACAD_CIP_PREVIOUS_PRODUCT_INFO"@, "ACAD_ENHANCEDBLOCKHISTORY"@);
    reveal_strlit("ASEBLOCKHIERARCHYINDEXRECORD");
    lemma_lengths_differ("ACAD_CIP_PREVIOUS_PRODUCT_INFO"@, "ASEBLOCKHIERARCHYINDEXRECORD"@);
    reveal_strlit("ADSK_XREC_LAYOUTTHUMBNAIL");
    lemma_lengths_differ("ACAD_CIP_PREVIOUS_PRODUCT_INFO"@, "ADSK_XREC_LAYOUTTHUMBNAIL"@);
    reveal_strlit("ADSK_XREC_VTRANIMATIONINFO");
    lemma_lengths_differ("ACAD_CIP_PREVIOUS_PRODUCT_INFO"@, "ADSK_XREC_VTRANIMATIONINFO"@);
    reveal_strlit("ADSK_XREC_VTRTHUMBNAIL");
    lemma_lengths_differ("ACAD_CIP_PREVIOUS_PRODUCT_INFO"@, "ADSK_XREC_VTRTHUMBNAIL"@);
    reveal_strlit("ADSK_XREC_VTRVIEWINFO");
    lemma_lengths_differ("ACAD_CIP_PREVIOUS_PRODUCT_INFO"@, "ADSK_XREC_VTRVIEWINFO"@);
    reveal_strlit("ADSK_XREC_PHOTOMETRICLIGHTINFO");
    lemma_differ_at("ACAD_CIP_PREVIOUS_PRODUCT_INFO"@, "ADSK_XREC_PHOTOMETRICLIGHTINFO"@, 1);
    reveal_strlit("LIGHTINGQUALITY");
    lemma_lengths_differ("ACAD_CIP_PREVIOUS_PRODUCT_INFO"@, "LIGHTINGQUALITY"@);
    reveal_strlit("ACAD_LAST_SAVED_VERSION_INFO");
    lemma_lengths_differ("ACAD_CIP_PREVIOUS_PRODUCT_INFO"@, "ACAD_LAST_SAVED_VERSION_INFO"@);
    law_kind_ignores_case(s, "ACAD_CIP_PREVIOUS_PRODUCT_INFO"@);
}

proof fn lemma_key_26(s: Seq<char>)
    requires
        eq_ci(s, "DWGPROPS"@),
    ensures
        known_kind_of(s) == KnownXRecordKind::DrawingProperties,
{
    reveal_strlit("DWGPROPS");
    reveal_strlit("ADSK_XREC_LAYER_ALPHA_OVR");
    lemma_lengths_differ("DWGPROPS"@, "ADSK_XREC_LAYER_ALPHA_OVR"@);
    reveal_strlit("ADSK_XREC_LAYER_COLOR_OVR");
    lemma_lengths_differ("DWGPROPS"@, "ADSK_XREC_LAYER_COLOR_OVR"@);
    reveal_strlit("ADSK_XREC_LAYER_LINETYPE_OVR");
    lemma_lengths_differ("DWGPROPS"@, "ADSK_XREC_LAYER_LINETYPE_OVR"@);
    reveal_strlit("ADSK_XREC_LAYER_LINEWT_OVR");
    lemma_lengths_differ("DWGPROPS"@, "ADSK_XREC_LAYER_LINEWT_OVR"@);
    reveal_strlit("ADSK_XREC_LAYER_RECONCILED");
    lemma_lengths_differ("DWGPROPS"@, "ADSK_XREC_LAYER_RECONCILED"@);
    reveal_strlit("ACADLAYERSTATEANNOSCALE");
    lemma_lengths_differ("DWGPROPS"@, "ACADLAYERSTATEANNOSCALE"@);
    reveal_strlit("ASDK_XREC_ANNOTATION_SCALE_INFO");
    lemma_lengths_differ("DWGPROPS"@, "ASDK_XREC_ANNOTATION_SCALE_INFO"@);
    reveal_strlit("ASDK_XREC_ANNO_SCALE_INFO");
    lemma_lengths_differ("DWGPROPS"@, "ASDK_XREC_ANNO_SCALE_INFO"@);
    reveal_strlit("ADSK_XREC_VTR_ANNOSCALE_DATA");
    lemma_lengths_differ("DWGPROPS"@, "ADSK_XREC_VTR_ANNOSCALE_DATA"@);
    reveal_strlit("ADSK_XREC_SUBDVERTEXTEXCOORDS");
    lemma_lengths_differ("DWGPROPS"@, "ADSK_XREC_SUBDVERTEXTEXCOORDS"@);
    reveal_strlit("ACAD_XREC_ROUNDTRIP");
    lemma_lengths_differ("DWGPROPS"@, "ACAD_XREC_ROUNDTRIP"@);
    reveal_strlit("ACAD_MTEXT_RT");
    lemma_lengths_differ("DWGPROPS"@, "ACAD_MTEXT_RT"@);
    reveal_strlit("ACAD_MTEXT_2008_RT");
    lemma_lengths_differ("DWGPROPS"@, "ACAD_MTEXT_2008_RT"@);
    reveal_strlit("ACDBHEADERROUNDTRIPXREC");
    lemma_lengths_differ("DWGPROPS"@, "ACDBHEADERROUNDTRIPXREC"@);
    reveal_strlit("AUXHDRRNDTRIPDATA");
    lemma_lengths_differ("DWGPROPS"@, "AUXHDRRNDTRIPDATA"@);
    reveal_strlit("ACDB_RECOMPOSE_DATA");
    lemma_lengths_differ("DWGPROPS"@, "ACDB_RECOMPOSE_DATA"@);
    reveal_strlit("ACAD_ENHANCEDBLOCKHISTORY");
    lemma_lengths_differ("DWGPROPS"@, "ACAD_ENHANCEDBLOCKHISTORY"@);
    reveal_strlit("ASEBLOCKHIERARCHYINDEXRECORD");
    lemma_lengths_differ("DWGPROPS"@, "ASEBLOCKHIERARCHYINDEXRECORD"@);
    reveal_strlit("ADSK_XREC_LAYOUTTHUMBNAIL");
    lemma_lengths_differ("DWGPROPS"@, "ADSK_XREC_LAYOUTTHUMBNAIL"@);
    reveal_strlit("ADSK_XREC_VTRANIMATIONINFO");
    lemma_lengths_differ("DWGPROPS"@, "ADSK_XREC_VTRANIMATIONINFO"@);
    reveal_strlit("ADSK_XREC_VTRTHUMBNAIL");
    lemma_lengths_differ("DWGPROPS"@, "ADSK_XREC_VTRTHUMBNAIL"@);
    reveal_strlit("ADSK_XREC_VTRVIEWINFO");
    lemma_lengths_differ("DWGPROPS"@, "ADSK_XREC_VTRVIEWINFO"@);
    reveal_strlit("ADSK_XREC_PHOTOMETRICLIGHTINFO");
    lemma_lengths_differ("DWGPROPS"@, "ADSK_XREC_PHOTOMETRICLIGHTINFO"@);
    reveal_strlit("LIGHTINGQUALITY");
    lemma_lengths_differ("DWGPROPS"@, "LIGHTINGQUALITY"@);
    reveal_strlit("ACAD_LAST_SAVED_VERSION_INFO");
    lemma_lengths_differ("DWGPROPS"@, "ACAD_LAST_SAVED_VERSION_INFO"@);
    reveal_strlit("ACAD_CIP_PREVIOUS_PRODUCT_INFO");
    lemma_lengths_differ("DWGPROPS"@, "ACAD_CIP_PREVIOUS_PRODUCT_INFO"@);
    law_kind_ignores_case(s, "DWGPROPS"@);
}

proof fn lemma_key_27(s: Seq<char>)
    requires
        eq_ci(s, "FINGERPRINTGUID"@),
    ensures
        known_kind_of(s) == KnownXRecordKind::FingerprintGuid,
{
    reveal_strlit("FINGERPRINTGUID");
    reveal_strlit("ADSK_XREC_LAYER_ALPHA_OVR");
    lemma_lengths_differ("FINGERPRINTGUID"@, "ADSK_XREC_LAYER_ALPHA_OVR"@);
    reveal_strlit("ADSK_XREC_LAYER_COLOR_OVR");
    lemma_lengths_differ("FINGERPRINTGUID"@, "ADSK_XREC_LAYER_COLOR_OVR"@);
    reveal_strlit("ADSK_XREC_LAYER_LINETYPE_OVR");
    lemma_lengths_differ("FINGERPRINTGUID"@, "ADSK_XREC_LAYER_LINETYPE_OVR"@);
    reveal_strlit("ADSK_XREC_LAYER_LINEWT_OVR");
    lemma_lengths_differ("FINGERPRINTGUID"@, "ADSK_XREC_LAYER_LINEWT_OVR"@);
    reveal_strlit("ADSK_XREC_LAYER_RECONCILED");
    lemma_lengths_differ("FINGERPRINTGUID"@, "ADSK_XREC_LAYER_RECONCILED"@);
    reveal_strlit("ACADLAYERSTATEANNOSCALE");
    lemma_lengths_differ("FINGERPRINTGUID"@, "ACADLAYERSTATEANNOSCALE"@);
    reveal_strlit("ASDK_XREC_ANNOTATION_SCALE_INFO");
    lemma_lengths_differ("FINGERPRINTGUID"@, "ASDK_XREC_ANNOTATION_SCALE_INFO"@);
    reveal_strlit("ASDK_XREC_ANNO_SCALE_INFO");
    lemma_lengths_differ("FINGERPRINTGUID"@, "ASDK_XREC_ANNO_SCALE_INFO"@);
    reveal_strlit("ADSK_XREC_VTR_ANNOSCALE_DATA");
    lemma_lengths_differ("FINGERPRINTGUID"@, "ADSK_XREC_VTR_ANNOSCALE_DATA"@);
    reveal_strlit("ADSK_XREC_SUBDVERTEXTEXCOORDS");
    lemma_lengths_differ("FINGERPRINTGUID"@, "ADSK_XREC_SUBDVERTEXTEXCOORDS"@);
    reveal_strlit("ACAD_XREC_ROUNDTRIP");
    lemma_lengths_differ("FINGERPRINTGUID"@, "ACAD_XREC_ROUNDTRIP"@);
    reveal_strlit("ACAD_MTEXT_RT");
    lemma_lengths_differ("FINGERPRINTGUID"@, "ACAD_MTEXT_RT"@);
    reveal_strlit("ACAD_MTEXT_2008_RT");
    lemma_lengths_differ("FINGERPRINTGUID"@, "ACAD_MTEXT_2008_RT"@);
    reveal_strlit("ACDBHEADERROUNDTRIPXREC");
    lemma_lengths_differ("FINGERPRINTGUID"@, "ACDBHEADERROUNDTRIPXREC"@);
    reveal_strlit("AUXHDRRNDTRIPDATA");
    lemma_lengths_differ("FINGERPRINTGUID"@, "AUXHDRRNDTRIPDATA"@);
    reveal_strlit("ACDB_RECOMPOSE_DATA");
    lemma_lengths_differ("FINGERPRINTGUID"@, "ACDB_RECOMPOSE_DATA"@);
    reveal_strlit("ACAD_ENHANCEDBLOCKHISTORY");
    lemma_lengths_differ("FINGERPRINTGUID"@, "ACAD_ENHANCEDBLOCKHISTORY"@);
    reveal_strlit("ASEBLOCKHIERARCHYINDEXRECORD");
    lemma_lengths_differ("FINGERPRINTGUID"@, "ASEBLOCKHIERARCHYINDEXRECORD"@);
    reveal_strlit("ADSK_XREC_LAYOUTTHUMBNAIL");
    lemma_lengths_differ("FINGERPRINTGUID"@, "ADSK_XREC_LAYOUTTHUMBNAIL"@);
    reveal_strlit("ADSK_XREC_VTRANIMATIONINFO");
    lemma_lengths_differ("FINGERPRINTGUID"@, "ADSK_XREC_VTRANIMATIONINFO"@);
    reveal_strlit("ADSK_XREC_VTRTHUMBNAIL");
    lemma_lengths_differ("FINGERPRINTGUID"@, "ADSK_XREC_VTRTHUMBNAIL"@);
    reveal_strlit("ADSK_XREC_VTRVIEWINFO");
    lemma_lengths_differ("FINGERPRINTGUID"@, "ADSK_XREC_VTRVIEWINFO"@);
    reveal_strlit("ADSK_XREC_PHOTOMETRICLIGHTINFO");
    lemma_lengths_differ("FINGERPRINTGUID"@, "ADSK_XREC_PHOTOMETRICLIGHTINFO"@);
    reveal_strlit("LIGHTINGQUALITY");
    lemma_differ_at("FINGERPRINTGUID"@, "LIGHTINGQUALITY"@, 0);
    reveal_strlit("ACAD_LAST_SAVED_VERSION_INFO");
    lemma_lengths_differ("FINGERPRINTGUID"@, "ACAD_LAST_SAVED_VERSION_INFO"@);
    reveal_strlit("ACAD_CIP_PREVIOUS_PRODUCT_INFO");
    lemma_lengths_differ("FINGERPRINTGUID"@, "ACAD_CIP_PREVIOUS_PRODUCT_INFO"@);
    reveal_strlit("DWGPROPS");
    lemma_lengths_differ("FINGERPRINTGUID"@, "DWGPROPS"@);
    law_kind_ignores_case(s, "FINGERPRINTGUID"@);
}

proof fn lemma_key_28(s: Seq<char>)
    requires
        eq_ci(s, "ACADDIM"@),
    ensures
        known_kind_of(s) == KnownXRecordKind::DimensionStyleData,
{
    reveal_strlit("ACADDIM");
    reveal_strlit("ADSK_XREC_LAYER_ALPHA_OVR");
    lemma_lengths_differ("ACADDIM"@, "ADSK_XREC_LAYER_ALPHA_OVR"@);
    reveal_strlit("ADSK_XREC_LAYER_COLOR_OVR");
    lemma_lengths_differ("ACADDIM"@, "ADSK_XREC_LAYER_COLOR_OVR"@);
    reveal_strlit("ADSK_XREC_LAYER_LINETYPE_OVR");
    lemma_lengths_differ("ACADDIM"@, "ADSK_XREC_LAYER_LINETYPE_OVR"@);
    reveal_strlit("ADSK_XREC_LAYER_LINEWT_OVR");
    lemma_lengths_differ("ACADDIM"@, "ADSK_XREC_LAYER_LINEWT_OVR"@);
    reveal_strlit("ADSK_XREC_LAYER_RECONCILED");
    lemma_lengths_differ("ACADDIM"@, "ADSK_XREC_LAYER_RECONCILED"@);
    reveal_strlit("ACADLAYERSTATEANNOSCALE");
    lemma_lengths_differ("ACADDIM"@, "ACADLAYERSTATEANNOSCALE"@);
    reveal_strlit("ASDK_XREC_ANNOTATION_SCALE_INFO");
    lemma_lengths_differ("ACADDIM"@, "ASDK_XREC_ANNOTATION_SCALE_INFO"@);
    reveal_strlit("ASDK_XREC_ANNO_SCALE_INFO");
    lemma_lengths_differ("ACADDIM"@, "ASDK_XREC_ANNO_SCALE_INFO"@);
    reveal_strlit("ADSK_XREC_VTR_ANNOSCALE_DATA");
    lemma_lengths_differ("ACADDIM"@, "ADSK_XREC_VTR_ANNOSCALE_DATA"@);
    reveal_strlit("ADSK_XREC_SUBDVERTEXTEXCOORDS");
    lemma_lengths_differ("ACADDIM"@, "ADSK_XREC_SUBDVERTEXTEXCOORDS"@);
    reveal_strlit("ACAD_XREC_ROUNDTRIP");
    lemma_lengths_differ("ACADDIM"@, "ACAD_XREC_ROUNDTRIP"@);
    reveal_strlit("ACAD_MTEXT_RT");
    lemma_lengths_differ("ACADDIM"@, "ACAD_MTEXT_RT"@);
    reveal_strlit("ACAD_MTEXT_2008_RT");
    lemma_lengths_differ("ACADDIM"@, "ACAD_MTEXT_2008_RT"@);
    reveal_strlit("ACDBHEADERROUNDTRIPXREC");
    lemma_lengths_differ("ACADDIM"@, "ACDBHEADERROUNDTRIPXREC"@);
    reveal_strlit("AUXHDRRNDTRIPDATA");
    lemma_lengths_differ("ACADDIM"@, "AUXHDRRNDTRIPDATA"@);
    reveal_strlit("ACDB_RECOMPOSE_DATA");
    lemma_lengths_differ("ACADDIM"@, "ACDB_RECOMPOSE_DATA"@);
    reveal_strlit("ACAD_ENHANCEDBLOCKHISTORY");
    lemma_lengths_differ("ACADDIM"@, "ACAD_ENHANCEDBLOCKHISTORY"@);
    reveal_strlit("ASEBLOCKHIERARCHYINDEXRECORD");
    lemma_lengths_differ("ACADDIM"@, "ASEBLOCKHIERARCHYINDEXRECORD"@);
    reveal_strlit("ADSK_XREC_LAYOUTTHUMBNAIL");
    lemma_lengths_differ("ACADDIM"@, "ADSK_XREC_LAYOUTTHUMBNAIL"@);
    reveal_strlit("ADSK_XREC_VTRANIMATIONINFO");
    lemma_lengths_differ("ACADDIM"@, "ADSK_XREC_VTRANIMATIONINFO"@);
    reveal_strlit("ADSK_XREC_VTRTHUMBNAIL");
    lemma_lengths_differ("ACADDIM"@, "ADSK_XREC_VTRTHUMBNAIL"@);
    reveal_strlit("ADSK_XREC_VTRVIEWINFO");
    lemma_lengths_differ("ACADDIM"@, "ADSK_XREC_VTRVIEWINFO"@);
    reveal_strlit("ADSK_XREC_PHOTOMETRICLIGHTINFO");
    lemma_lengths_differ("ACADDIM"@, "ADSK_XREC_PHOTOMETRICLIGHTINFO"@);
    reveal_strlit("LIGHTINGQUALITY");
    lemma_lengths_differ("ACADDIM"@, "LIGHTINGQUALITY"@);
    reveal_strlit("ACAD_LAST_SAVED_VERSION_INFO");
    lemma_lengths_differ("ACADDIM"@, "ACAD_LAST_SAVED_VERSION_INFO"@);
    reveal_strlit("ACAD_CIP_PREVIOUS_PRODUCT_INFO");
    lemma_lengths_differ("ACADDIM"@, "ACAD_CIP_PREVIOUS_PRODUCT_INFO"@);
    reveal_strlit("DWGPROPS");
    lemma_lengths_differ("ACADDIM"@, "DWGPROPS"@);
    reveal_strlit("FINGERPRINTGUID");
    lemma_lengths_differ("ACADDIM"@, "FINGERPRINTGUID"@);
    law_kind_ignores_case(s, "ACADDIM"@);
}

proof fn lemma_key_29(s: Seq<char>)
    requires
        eq_ci(s, "DIMSTYLEDATA"@),
    ensures
        known_kind_of(s) == KnownXRecordKind::DimensionStyleData,
{
    reveal_strlit("DIMSTYLEDATA");
    reveal_strlit("ADSK_XREC_LAYER_ALPHA_OVR");
    lemma_lengths_differ("DIMSTYLEDATA"@, "ADSK_XREC_LAYER_ALPHA_OVR"@);
    reveal_strlit("ADSK_XREC_LAYER_COLOR_OVR");
    lemma_lengths_differ("DIMSTYLEDATA"@, "ADSK_XREC_LAYER_COLOR_OVR"@);
    reveal_strlit("ADSK_XREC_LAYER_LINETYPE_OVR");
    lemma_lengths_differ("DIMSTYLEDATA"@, "ADSK_XREC_LAYER_LINETYPE_OVR"@);
    reveal_strlit("ADSK_XREC_LAYER_LINEWT_OVR");
    lemma_lengths_differ("DIMSTYLEDATA"@, "ADSK_XREC_LAYER_LINEWT_OVR"@);
    reveal_strlit("ADSK_XREC_LAYER_RECONCILED");
    lemma_lengths_differ("DIMSTYLEDATA"@, "ADSK_XREC_LAYER_RECONCILED"@);
    reveal_strlit("ACADLAYERSTATEANNOSCALE");
    lemma_lengths_differ("DIMSTYLEDATA"@, "ACADLAYERSTATEANNOSCALE"@);
    reveal_strlit("ASDK_XREC_ANNOTATION_SCALE_INFO");
    lemma_lengths_differ("DIMSTYLEDATA"@, "ASDK_XREC_ANNOTATION_SCALE_INFO"@);
    reveal_strlit("ASDK_XREC_ANNO_SCALE_INFO");
    lemma_lengths_differ("DIMSTYLEDATA"@, "ASDK_XREC_ANNO_SCALE_INFO"@);
    reveal_strlit("ADSK_XREC_VTR_ANNOSCALE_DATA");
    lemma_lengths_differ("DIMSTYLEDATA"@, "ADSK_XREC_VTR_ANNOSCALE_DATA"@);
    reveal_strlit("ADSK_XREC_SUBDVERTEXTEXCOORDS");
    lemma_lengths_differ("DIMSTYLEDATA"@, "ADSK_XREC_SUBDVERTEXTEXCOORDS"@);
    reveal_strlit("ACAD_XREC_ROUNDTRIP");
    lemma_lengths_differ("DIMSTYLEDATA"@, "ACAD_XREC_ROUNDTRIP"@);
    reveal_strlit("ACAD_MTEXT_RT");
    lemma_lengths_differ("DIMSTYLEDATA"@, "ACAD_MTEXT_RT"@);
    reveal_strlit("ACAD_MTEXT_2008_RT");
    lemma_lengths_differ("DIMSTYLEDATA"@, "ACAD_MTEXT_2008_RT"@);
    reveal_strlit("ACDBHEADERROUNDTRIPXREC");
    lemma_lengths_differ("DIMSTYLEDATA"@, "ACDBHEADERROUNDTRIPXREC"@);
    reveal_strlit("AUXHDRRNDTRIPDATA");
    lemma_lengths_differ("DIMSTYLEDATA"@, "AUXHDRRNDTRIPDATA"@);
    reveal_strlit("ACDB_RECOMPOSE_DATA");
    lemma_lengths_differ("DIMSTYLEDATA"@, "ACDB_RECOMPOSE_DATA"@);
    reveal_strlit("ACAD_ENHANCEDBLOCKHISTORY");
    lemma_lengths_differ("DIMSTYLEDATA"@, "ACAD_ENHANCEDBLOCKHISTORY"@);
    reveal_strlit("ASEBLOCKHIERARCHYINDEXRECORD");
    lemma_lengths_differ("DIMSTYLEDATA"@, "ASEBLOCKHIERARCHYINDEXRECORD"@);
    reveal_strlit("ADSK_XREC_LAYOUTTHUMBNAIL");
    lemma_lengths_differ("DIMSTYLEDATA"@, "ADSK_XREC_LAYOUTTHUMBNAIL"@);
    reveal_strlit("ADSK_XREC_VTRANIMATIONINFO");
    lemma_lengths_differ("DIMSTYLEDATA"@, "ADSK_XREC_VTRANIMATIONINFO"@);
    reveal_strlit("ADSK_XREC_VTRTHUMBNAIL");
    lemma_lengths_differ("DIMSTYLEDATA"@, "ADSK_XREC_VTRTHUMBNAIL"@);
    reveal_strlit("ADSK_XREC_VTRVIEWINFO");
    lemma_lengths_differ("DIMSTYLEDATA"@, "ADSK_XREC_VTRVIEWINFO"@);
    reveal_strlit("ADSK_XREC_PHOTOMETRICLIGHTINFO");
    lemma_lengths_differ("DIMSTYLEDATA"@, "ADSK_XREC_PHOTOMETRICLIGHTINFO"@);
    reveal_strlit("LIGHTINGQUALITY");
    lemma_lengths_differ("DIMSTYLEDATA"@, "LIGHTINGQUALITY"@);
    reveal_strlit("ACAD_LAST_SAVED_VERSION_INFO");
    lemma_lengths_differ("DIMSTYLEDATA"@, "ACAD_LAST_SAVED_VERSION_INFO"@);
    reveal_strlit("ACAD_CIP_PREVIOUS_PRODUCT_INFO");
    lemma_lengths_differ("DIMSTYLEDATA"@, "ACAD_CIP_PREVIOUS_PRODUCT_INFO"@);
    reveal_strlit("DWGPROPS");
    lemma_lengths_differ("DIMSTYLEDATA"@, "DWGPROPS"@);
    reveal_strlit("FINGERPRINTGUID");
    lemma_lengths_differ("DIMSTYLEDATA"@, "FINGERPRINTGUID"@);
    reveal_strlit("ACADDIM");
    lemma_lengths_differ("DIMSTYLEDATA"@, "ACADDIM"@);
    law_kind_ignores_case(s, "DIMSTYLEDATA"@);
}

proof fn lemma_key_30(s: Seq<char>)
    requires
        eq_ci(s, "DIMLTEX1"@),
    ensures
        known_kind_of(s) == KnownXRecordKind::DimensionStyleData,
{
    reveal_strlit("DIMLTEX1");
    reveal_strlit("ADSK_XREC_LAYER_ALPHA_OVR");
    lemma_lengths_differ("DIMLTEX1"@, "ADSK_XREC_LAYER_ALPHA_OVR"@);
    reveal_strlit("ADSK_XREC_LAYER_COLOR_OVR");
    lemma_lengths_differ("DIMLTEX1"@, "ADSK_XREC_LAYER_COLOR_OVR"@);
    reveal_strlit("ADSK_XREC_LAYER_LINETYPE_OVR");
    lemma_lengths_differ("DIMLTEX1"@, "ADSK_XREC_LAYER_LINETYPE_OVR"@);
    reveal_strlit("ADSK_XREC_LAYER_LINEWT_OVR");
    lemma_lengths_differ("DIMLTEX1"@, "ADSK_XREC_LAYER_LINEWT_OVR"@);
    reveal_strlit("ADSK_XREC_LAYER_RECONCILED");
    lemma_lengths_differ("DIMLTEX1"@, "ADSK_XREC_LAYER_RECONCILED"@);
    reveal_strlit("ACADLAYERSTATEANNOSCALE");
    lemma_lengths_differ("DIMLTEX1"@, "ACADLAYERSTATEANNOSCALE"@);
    reveal_strlit("ASDK_XREC_ANNOTATION_SCALE_INFO");
    lemma_lengths_differ("DIMLTEX1"@, "ASDK_XREC_ANNOTATION_SCALE_INFO"@);
    reveal_strlit("ASDK_XREC_ANNO_SCALE_INFO");
    lemma_lengths_differ("DIMLTEX1"@, "ASDK_XREC_ANNO_SCALE_INFO"@);
    reveal_strlit("ADSK_XREC_VTR_ANNOSCALE_DATA");
    lemma_lengths_differ("DIMLTEX1"@, "ADSK_XREC_VTR_ANNOSCALE_DATA"@);
    reveal_strlit("ADSK_XREC_SUBDVERTEXTEXCOORDS");
    lemma_lengths_differ("DIMLTEX1"@, "ADSK_XREC_SUBDVERTEXTEXCOORDS"@);
    reveal_strlit("ACAD_XREC_ROUNDTRIP");
    lemma_lengths_differ("DIMLTEX1"@, "ACAD_XREC_ROUNDTRIP"@);
    reveal_strlit("ACAD_MTEXT_RT");
    lemma_lengths_differ("DIMLTEX1"@, "ACAD_MTEXT_RT"@);
    reveal_strlit("ACAD_MTEXT_2008_RT");
    lemma_lengths_differ("DIMLTEX1"@, "ACAD_MTEXT_2008_RT"@);
    reveal_strlit("ACDBHEADERROUNDTRIPXREC");
    lemma_lengths_differ("DIMLTEX1"@, "ACDBHEADERROUNDTRIPXREC"@);
    reveal_strlit("AUXHDRRNDTRIPDATA");
    lemma_lengths_differ("DIMLTEX1"@, "AUXHDRRNDTRIPDATA"@);
    reveal_strlit("ACDB_RECOMPOSE_DATA");
    lemma_lengths_differ("DIMLTEX1"@, "ACDB_RECOMPOSE_DATA"@);
    reveal_strlit("ACAD_ENHANCEDBLOCKHISTORY");
    lemma_lengths_differ("DIMLTEX1"@, "ACAD_ENHANCEDBLOCKHISTORY"@);
    reveal_strlit("ASEBLOCKHIERARCHYINDEXRECORD");
    lemma_lengths_differ("DIMLTEX1"@, "ASEBLOCKHIERARCHYINDEXRECORD"@);
    reveal_strlit("ADSK_XREC_LAYOUTTHUMBNAIL");
    lemma_lengths_differ("DIMLTEX1"@, "ADSK_XREC_LAYOUTTHUMBNAIL"@);
    reveal_strlit("ADSK_XREC_VTRANIMATIONINFO");
    lemma_lengths_differ("DIMLTEX1"@, "ADSK_XREC_VTRANIMATIONINFO"@);
    reveal_strlit("ADSK_XREC_VTRTHUMBNAIL");
    lemma_lengths_differ("DIMLTEX1"@, "ADSK_XREC_VTRTHUMBNAIL"@);
    reveal_strlit("ADSK_XREC_VTRVIEWINFO");
    lemma_lengths_differ("DIMLTEX1"@, "ADSK_XREC_VTRVIEWINFO"@);
    reveal_strlit("ADSK_XREC_PHOTOMETRICLIGHTINFO");
    lemma_lengths_differ("DIMLTEX1"@, "ADSK_XREC_PHOTOMETRICLIGHTINFO"@);
    reveal_strlit("LIGHTINGQUALITY");
    lemma_lengths_differ("DIMLTEX1"@, "LIGHTINGQUALITY"@);
    reveal_strlit("ACAD_LAST_SAVED_VERSION_INFO");
    lemma_lengths_differ("DIMLTEX1"@, "ACAD_LAST_SAVED_VERSION_INFO"@);
    reveal_strlit("ACAD_CIP_PREVIOUS_PRODUCT_INFO");
    lemma_lengths_differ("DIMLTEX1"@, "ACAD_CIP_PREVIOUS_PRODUCT_INFO"@);
    reveal_strlit("DWGPROPS");
    lemma_differ_at("DIMLTEX1"@, "DWGPROPS"@, 1);
    reveal_strlit("FINGERPRINTGUID");
    lemma_lengths_differ("DIMLTEX1"@, "FINGERPRINTGUID"@);
    reveal_strlit("ACADDIM");
    lemma_lengths_differ("DIMLTEX1"@, "ACADDIM"@);
    reveal_strlit("DIMSTYLEDATA");
    lemma_lengths_differ("DIMLTEX1"@, "DIMSTYLEDATA"@);
    law_kind_ignores_case(s, "DIMLTEX1"@);
}

proof fn lemma_key_31(s: Seq<char>)
    requires
        eq_ci(s, "DIMLTEX2"@),
    ensures
        known_kind_of(s) == KnownXRecordKind::DimensionStyleData,
{
    reveal_strlit("DIMLTEX2");
    reveal_strlit("ADSK_XREC_LAYER_ALPHA_OVR");
    lemma_lengths_differ("DIMLTEX2"@, "ADSK_XREC_LAYER_ALPHA_OVR"@);
    reveal_strlit("ADSK_XREC_LAYER_COLOR_OVR");
    lemma_lengths_differ("DIMLTEX2"@, "ADSK_XREC_LAYER_COLOR_OVR"@);
    reveal_strlit("ADSK_XREC_LAYER_LINETYPE_OVR");
    lemma_lengths_differ("DIMLTEX2"@, "ADSK_XREC_LAYER_LINETYPE_OVR"@);
    reveal_strlit("ADSK_XREC_LAYER_LINEWT_OVR");
    lemma_lengths_differ("DIMLTEX2"@, "ADSK_XREC_LAYER_LINEWT_OVR"@);
    reveal_strlit("ADSK_XREC_LAYER_RECONCILED");
    lemma_lengths_differ("DIMLTEX2"@, "ADSK_XREC_LAYER_RECONCILED"@);
    reveal_strlit("ACADLAYERSTATEANNOSCALE");
    lemma_lengths_differ("DIMLTEX2"@, "ACADLAYERSTATEANNOSCALE"@);
    reveal_strlit("ASDK_XREC_ANNOTATION_SCALE_INFO");
    lemma_lengths_differ("DIMLTEX2"@, "ASDK_XREC_ANNOTATION_SCALE_INFO"@);
    reveal_strlit("ASDK_XREC_ANNO_SCALE_INFO");
    lemma_lengths_differ("DIMLTEX2"@, "ASDK_XREC_ANNO_SCALE_INFO"@);
    reveal_strlit("ADSK_XREC_VTR_ANNOSCALE_DATA");
    lemma_lengths_differ("DIMLTEX2"@, "ADSK_XREC_VTR_ANNOSCALE_DATA"@);
    reveal_strlit("ADSK_XREC_SUBDVERTEXTEXCOORDS");
    lemma_lengths_differ("DIMLTEX2"@, "ADSK_XREC_SUBDVERTEXTEXCOORDS"@);
    reveal_strlit("ACAD_XREC_ROUNDTRIP");
    lemma_lengths_differ("DIMLTEX2"@, "ACAD_XREC_ROUNDTRIP"@);
    reveal_strlit("ACAD_MTEXT_RT");
    lemma_lengths_differ("DIMLTEX2"@, "ACAD_MTEXT_RT"@);
    reveal_strlit("ACAD_MTEXT_2008_RT");
    lemma_lengths_differ("DIMLTEX2"@, "ACAD_MTEXT_2008_RT"@);
    reveal_strlit("ACDBHEADERROUNDTRIPXREC");
    lemma_lengths_differ("DIMLTEX2"@, "ACDBHEADERROUNDTRIPXREC"@);
    reveal_strlit("AUXHDRRNDTRIPDATA");
    lemma_lengths_differ("DIMLTEX2"@, "AUXHDRRNDTRIPDATA"@);
    reveal_strlit("ACDB_RECOMPOSE_DATA");
    lemma_lengths_differ("DIMLTEX2"@, "ACDB_RECOMPOSE_DATA"@);
    reveal_strlit("ACAD_ENHANCEDBLOCKHISTORY");
    lemma_lengths_differ("DIMLTEX2"@, "ACAD_ENHANCEDBLOCKHISTORY"@);
    reveal_strlit("ASEBLOCKHIERARCHYINDEXRECORD");
    lemma_lengths_differ("DIMLTEX2"@, "ASEBLOCKHIERARCHYINDEXRECORD"@);
    reveal_strlit("ADSK_XREC_LAYOUTTHUMBNAIL");
    lemma_lengths_differ("DIMLTEX2"@, "ADSK_XREC_LAYOUTTHUMBNAIL"@);
    reveal_strlit("ADSK_XREC_VTRANIMATIONINFO");
    lemma_lengths_differ("DIMLTEX2"@, "ADSK_XREC_VTRANIMATIONINFO"@);
    reveal_strlit("ADSK_XREC_VTRTHUMBNAIL");
    lemma_lengths_differ("DIMLTEX2"@, "ADSK_XREC_VTRTHUMBNAIL"@);
    reveal_strlit("ADSK_XREC_VTRVIEWINFO");
    lemma_lengths_differ("DIMLTEX2"@, "ADSK_XREC_VTRVIEWINFO"@);
    reveal_strlit("ADSK_XREC_PHOTOMETRICLIGHTINFO");
    lemma_lengths_differ("DIMLTEX2"@, "ADSK_XREC_PHOTOMETRICLIGHTINFO"@);
    reveal_strlit("LIGHTINGQUALITY");
    lemma_lengths_differ("DIMLTEX2"@, "LIGHTINGQUALITY"@);
    reveal_strlit("ACAD_LAST_SAVED_VERSION_INFO");
    lemma_lengths_differ("DIMLTEX2"@, "ACAD_LAST_SAVED_VERSION_INFO"@);
    reveal_strlit("ACAD_CIP_PREVIOUS_PRODUCT_INFO");
    lemma_lengths_differ("DIMLTEX2"@, "ACAD_CIP_PREVIOUS_PRODUCT_INFO"@);
    reveal_strlit("DWGPROPS");
    lemma_differ_at("DIMLTEX2"@, "DWGPROPS"@, 1);
    reveal_strlit("FINGERPRINTGUID");
    lemma_lengths_differ("DIMLTEX2"@, "FINGERPRINTGUID"@);
    reveal_strlit("ACADDIM");
    lemma_lengths_differ("DIMLTEX2"@, "ACADDIM"@);
    reveal_strlit("DIMSTYLEDATA");
    lemma_lengths_differ("DIMLTEX2"@, "DIMSTYLEDATA"@);
    reveal_strlit("DIMLTEX1");
    lemma_differ_at("DIMLTEX2"@, "DIMLTEX1"@, 7);
    law_kind_ignores_case(s, "DIMLTEX2"@);
}

proof fn lemma_key_32(s: Seq<char>)
    requires
        eq_ci(s, "DIMLTYPE"@),
    ensures
        known_kind_of(s) == KnownXRecordKind::DimensionStyleData,
{
    reveal_strlit("DIMLTYPE");
    reveal_strlit("ADSK_XREC_LAYER_ALPHA_OVR");
    lemma_lengths_differ("DIMLTYPE"@, "ADSK_XREC_LAYER_ALPHA_OVR"@);
    reveal_strlit("ADSK_XREC_LAYER_COLOR_OVR");
    lemma_lengths_differ("DIMLTYPE"@, "ADSK_XREC_LAYER_COLOR_OVR"@);
    reveal_strlit("ADSK_XREC_LAYER_LINETYPE_OVR");
    lemma_lengths_differ("DIMLTYPE"@, "ADSK_XREC_LAYER_LINETYPE_OVR"@);
    reveal_strlit("ADSK_XREC_LAYER_LINEWT_OVR");
    lemma_lengths_differ("DIMLTYPE"@, "ADSK_XREC_LAYER_LINEWT_OVR"@);
    reveal_strlit("ADSK_XREC_LAYER_RECONCILED");
    lemma_lengths_differ("DIMLTYPE"@, "ADSK_XREC_LAYER_RECONCILED"@);
    reveal_strlit("ACADLAYERSTATEANNOSCALE");
    lemma_lengths_differ("DIMLTYPE"@, "ACADLAYERSTATEANNOSCALE"@);
    reveal_strlit("ASDK_XREC_ANNOTATION_SCALE_INFO");
    lemma_lengths_differ("DIMLTYPE"@, "ASDK_XREC_ANNOTATION_SCALE_INFO"@);
    reveal_strlit("ASDK_XREC_ANNO_SCALE_INFO");
    lemma_lengths_differ("DIMLTYPE"@, "ASDK_XREC_ANNO_SCALE_INFO"@);
    reveal_strlit("ADSK_XREC_VTR_ANNOSCALE_DATA");
    lemma_lengths_differ("DIMLTYPE"@, "ADSK_XREC_VTR_ANNOSCALE_DATA"@);
    reveal_strlit("ADSK_XREC_SUBDVERTEXTEXCOORDS");
    lemma_lengths_differ("DIMLTYPE"@, "ADSK_XREC_SUBDVERTEXTEXCOORDS"@);
    reveal_strlit("ACAD_XREC_ROUNDTRIP");
    lemma_lengths_differ("DIMLTYPE"@, "ACAD_XREC_ROUNDTRIP"@);
    reveal_strlit("ACAD_MTEXT_RT");
    lemma_lengths_differ("DIMLTYPE"@, "ACAD_MTEXT_RT"@);
    reveal_strlit("ACAD_MTEXT_2008_RT");
    lemma_lengths_differ("DIMLTYPE"@, "ACAD_MTEXT_2008_RT"@);
    reveal_strlit("ACDBHEADERROUNDTRIPXREC");
    lemma_lengths_differ("DIMLTYPE"@, "ACDBHEADERROUNDTRIPXREC"@);
    reveal_strlit("AUXHDRRNDTRIPDATA");
    lemma_lengths_differ("DIMLTYPE"@, "AUXHDRRNDTRIPDATA"@);
    reveal_strlit("ACDB_RECOMPOSE_DATA");
    lemma_lengths_differ("DIMLTYPE"@, "ACDB_RECOMPOSE_DATA"@);
    reveal_strlit("ACAD_ENHANCEDBLOCKHISTORY");
    lemma_lengths_differ("DIMLTYPE"@, "ACAD_ENHANCEDBLOCKHISTORY"@);
    reveal_strlit("ASEBLOCKHIERARCHYINDEXRECORD");
    lemma_lengths_differ("DIMLTYPE"@, "ASEBLOCKHIERARCHYINDEXRECORD"@);
    reveal_strlit("ADSK_XREC_LAYOUTTHUMBNAIL");
    lemma_lengths_differ("DIMLTYPE"@, "ADSK_XREC_LAYOUTTHUMBNAIL"@);
    reveal_strlit("ADSK_XREC_VTRANIMATIONINFO");
    lemma_lengths_differ("DIMLTYPE"@, "ADSK_XREC_VTRANIMATIONINFO"@);
    reveal_strlit("ADSK_XREC_VTRTHUMBNAIL");
    lemma_lengths_differ("DIMLTYPE"@, "ADSK_XREC_VTRTHUMBNAIL"@);
    reveal_strlit("ADSK_XREC_VTRVIEWINFO");
    lemma_lengths_differ("DIMLTYPE"@, "ADSK_XREC_VTRVIEWINFO"@);
    reveal_strlit("ADSK_XREC_PHOTOMETRICLIGHTINFO");
    lemma_lengths_differ("DIMLTYPE"@, "ADSK_XREC_PHOTOMETRICLIGHTINFO"@);
    reveal_strlit("LIGHTINGQUALITY");
    lemma_lengths_differ("DIMLTYPE"@, "LIGHTINGQUALITY"@);
    reveal_strlit("ACAD_LAST_SAVED_VERSION_INFO");
    lemma_lengths_differ("DIMLTYPE"@, "ACAD_LAST_SAVED_VERSION_INFO"@);
    reveal_strlit("ACAD_CIP_PREVIOUS_PRODUCT_INFO");
    lemma_lengths_differ("DIMLTYPE"@, "ACAD_CIP_PREVIOUS_PRODUCT_INFO"@);
    reveal_strlit("DWGPROPS");
    lemma_differ_at("DIMLTYPE"@, "DWGPROPS"@, 1);
    reveal_strlit("FINGERPRINTGUID");
    lemma_lengths_differ("DIMLTYPE"@, "FINGERPRINTGUID"@);
    reveal_strlit("ACADDIM");
    lemma_lengths_differ("DIMLTYPE"@, "ACADDIM"@);
    reveal_strlit("DIMSTYLEDATA");
    lemma_lengths_differ("DIMLTYPE"@, "DIMSTYLEDATA"@);
    reveal_strlit("DIMLTEX1");
    lemma_differ_at("DIMLTYPE"@, "DIMLTEX1"@, 5);
    reveal_strlit("DIMLTEX2");
    lemma_differ_at("DIMLTYPE"@, "DIMLTEX2"@, 5);
    law_kind_ignores_case(s, "DIMLTYPE"@);
}

proof fn lemma_key_33(s: Seq<char>)
    requires
        eq_ci(s, "TSTACKALIGN"@),
    ensures
        known_kind_of(s) == KnownXRecordKind::DimensionStyleData,
{
    reveal_strlit("TSTACKALIGN");
    reveal_strlit("ADSK_XREC_LAYER_ALPHA_OVR");
    lemma_lengths_differ("TSTACKALIGN"@, "ADSK_XREC_LAYER_ALPHA_OVR"@);
    reveal_strlit("ADSK_XREC_LAYER_COLOR_OVR");
    lemma_lengths_differ("TSTACKALIGN"@, "ADSK_XREC_LAYER_COLOR_OVR"@);
    reveal_strlit("ADSK_XREC_LAYER_LINETYPE_OVR");
    lemma_lengths_differ("TSTACKALIGN"@, "ADSK_XREC_LAYER_LINETYPE_OVR"@);
    reveal_strlit("ADSK_XREC_LAYER_LINEWT_OVR");
    lemma_lengths_differ("TSTACKALIGN"@, "ADSK_XREC_LAYER_LINEWT_OVR"@);
    reveal_strlit("ADSK_XREC_LAYER_RECONCILED");
    lemma_lengths_differ("TSTACKALIGN"@, "ADSK_XREC_LAYER_RECONCILED"@);
    reveal_strlit("ACADLAYERSTATEANNOSCALE");
    lemma_lengths_differ("TSTACKALIGN"@, "ACADLAYERSTATEANNOSCALE"@);
    reveal_strlit("ASDK_XREC_ANNOTATION_SCALE_INFO");
    lemma_lengths_differ("TSTACKALIGN"@, "ASDK_XREC_ANNOTATION_SCALE_INFO"@);
    reveal_strlit("ASDK_XREC_ANNO_SCALE_INFO");
    lemma_lengths_differ("TSTACKALIGN"@, "ASDK_XREC_ANNO_SCALE_INFO"@);
    reveal_strlit("ADSK_XREC_VTR_ANNOSCALE_DATA");
    lemma_lengths_differ("TSTACKALIGN"@, "ADSK_XREC_VTR_ANNOSCALE_DATA"@);
    reveal_strlit("ADSK_XREC_SUBDVERTEXTEXCOORDS");
    lemma_lengths_differ("TSTACKALIGN"@, "ADSK_XREC_SUBDVERTEXTEXCOORDS"@);
    reveal_strlit("ACAD_XREC_ROUNDTRIP");
    lemma_lengths_differ("TSTACKALIGN"@, "ACAD_XREC_ROUNDTRIP"@);
    reveal_strlit("ACAD_MTEXT_RT");
    lemma_lengths_differ("TSTACKALIGN"@, "ACAD_MTEXT_RT"@);
    reveal_strlit("ACAD_MTEXT_2008_RT");
    lemma_lengths_differ("TSTACKALIGN"@, "ACAD_MTEXT_2008_RT"@);
    reveal_strlit("ACDBHEADERROUNDTRIPXREC");
    lemma_lengths_differ("TSTACKALIGN"@, "ACDBHEADERROUNDTRIPXREC"@);
    reveal_strlit("AUXHDRRNDTRIPDATA");
    lemma_lengths_differ("TSTACKALIGN"@, "AUXHDRRNDTRIPDATA"@);
    reveal_strlit("ACDB_RECOMPOSE_DATA");
    lemma_lengths_differ("TSTACKALIGN"@, "ACDB_RECOMPOSE_DATA"@);
    reveal_strlit("ACAD_ENHANCEDBLOCKHISTORY");
    lemma_lengths_differ("TSTACKALIGN"@, "ACAD_ENHANCEDBLOCKHISTORY"@);
    reveal_strlit("ASEBLOCKHIERARCHYINDEXRECORD");
    lemma_lengths_differ("TSTACKALIGN"@, "ASEBLOCKHIERARCHYINDEXRECORD"@);
    reveal_strlit("ADSK_XREC_LAYOUTTHUMBNAIL");
    lemma_lengths_differ("TSTACKALIGN"@, "ADSK_XREC_LAYOUTTHUMBNAIL"@);
    reveal_strlit("ADSK_XREC_VTRANIMATIONINFO");
    lemma_lengths_differ("TSTACKALIGN"@, "ADSK_XREC_VTRANIMATIONINFO"@);
    reveal_strlit("ADSK_XREC_VTRTHUMBNAIL");
    lemma_lengths_differ("TSTACKALIGN"@, "ADSK_XREC_VTRTHUMBNAIL"@);
    reveal_strlit("ADSK_XREC_VTRVIEWINFO");
    lemma_lengths_differ("TSTACKALIGN"@, "ADSK_XREC_VTRVIEWINFO"@);
    reveal_strlit("ADSK_XREC_PHOTOMETRICLIGHTINFO");
    lemma_lengths_differ("TSTACKALIGN"@, "ADSK_XREC_PHOTOMETRICLIGHTINFO"@);
    reveal_strlit("LIGHTINGQUALITY");
    lemma_lengths_differ("TSTACKALIGN"@, "LIGHTINGQUALITY"@);
    reveal_strlit("ACAD_LAST_SAVED_VERSION_INFO");
    lemma_lengths_differ("TSTACKALIGN"@, "ACAD_LAST_SAVED_VERSION_INFO"@);
    reveal_strlit("ACAD_CIP_PREVIOUS_PRODUCT_INFO");
    lemma_lengths_differ("TSTACKALIGN"@, "ACAD_CIP_PREVIOUS_PRODUCT_INFO"@);
    reveal_strlit("DWGPROPS");
    lemma_lengths_differ("TSTACKALIGN"@, "DWGPROPS"@);
    reveal_strlit("FINGERPRINTGUID");
    lemma_lengths_differ("TSTACKALIGN"@, "FINGERPRINTGUID"@);
    reveal_strlit("ACADDIM");
    lemma_lengths_differ("TSTACKALIGN"@, "ACADDIM"@);
    reveal_strlit("DIMSTYLEDATA");
    lemma_lengths_differ("TSTACKALIGN"@, "DIMSTYLEDATA"@);
    reveal_strlit("DIMLTEX1");
    lemma_lengths_differ("TSTACKALIGN"@, "DIMLTEX1"@);
    reveal_strlit("DIMLTEX2");
    lemma_lengths_differ("TSTACKALIGN"@, "DIMLTEX2"@);
    reveal_strlit("DIMLTYPE");
    lemma_lengths_differ("TSTACKALIGN"@, "DIMLTYPE"@);
    law_kind_ignores_case(s, "TSTACKALIGN"@);
}

proof fn lemma_key_34(s: Seq<char>)
    requires
        eq_ci(s, "TSTACKSIZE"@),
    ensures
        known_kind_of(s) == KnownXRecordKind::DimensionStyleData,
{
    reveal_strlit("TSTACKSIZE");
    reveal_strlit("ADSK_XREC_LAYER_ALPHA_OVR");
    lemma_lengths_differ("TSTACKSIZE"@, "ADSK_XREC_LAYER_ALPHA_OVR"@);
    reveal_strlit("ADSK_XREC_LAYER_COLOR_OVR");
    lemma_lengths_differ("TSTACKSIZE"@, "ADSK_XREC_LAYER_COLOR_OVR"@);
    reveal_strlit("ADSK_XREC_LAYER_LINETYPE_OVR");
    lemma_lengths_differ("TSTACKSIZE"@, "ADSK_XREC_LAYER_LINETYPE_OVR"@);
    reveal_strlit("ADSK_XREC_LAYER_LINEWT_OVR");
    lemma_lengths_differ("TSTACKSIZE"@, "ADSK_XREC_LAYER_LINEWT_OVR"@);
    reveal_strlit("ADSK_XREC_LAYER_RECONCILED");
    lemma_lengths_differ("TSTACKSIZE"@, "ADSK_XREC_LAYER_RECONCILED"@);
    reveal_strlit("ACADLAYERSTATEANNOSCALE");
    lemma_lengths_differ("TSTACKSIZE"@, "ACADLAYERSTATEANNOSCALE"@);
    reveal_strlit("ASDK_XREC_ANNOTATION_SCALE_INFO");
    lemma_lengths_differ("TSTACKSIZE"@, "ASDK_XREC_ANNOTATION_SCALE_INFO"@);
    reveal_strlit("ASDK_XREC_ANNO_SCALE_INFO");
    lemma_lengths_differ("TSTACKSIZE"@, "ASDK_XREC_ANNO_SCALE_INFO"@);
    reveal_strlit("ADSK_XREC_VTR_ANNOSCALE_DATA");
    lemma_lengths_differ("TSTACKSIZE"@, "ADSK_XREC_VTR_ANNOSCALE_DATA"@);
    reveal_strlit("ADSK_XREC_SUBDVERTEXTEXCOORDS");
    lemma_lengths_differ("TSTACKSIZE"@, "ADSK_XREC_SUBDVERTEXTEXCOORDS"@);
    reveal_strlit("ACAD_XREC_ROUNDTRIP");
    lemma_lengths_differ("TSTACKSIZE"@, "ACAD_XREC_ROUNDTRIP"@);
    reveal_strlit("ACAD_MTEXT_RT");
    lemma_lengths_differ("TSTACKSIZE"@, "ACAD_MTEXT_RT"@);
    reveal_strlit("ACAD_MTEXT_2008_RT");
    lemma_lengths_differ("TSTACKSIZE"@, "ACAD_MTEXT_2008_RT"@);
    reveal_strlit("ACDBHEADERROUNDTRIPXREC");
    lemma_lengths_differ("TSTACKSIZE"@, "ACDBHEADERROUNDTRIPXREC"@);
    reveal_strlit("AUXHDRRNDTRIPDATA");
    lemma_lengths_differ("TSTACKSIZE"@, "AUXHDRRNDTRIPDATA"@);
    reveal_strlit("ACDB_RECOMPOSE_DATA");
    lemma_lengths_differ("TSTACKSIZE"@, "ACDB_RECOMPOSE_DATA"@);
    reveal_strlit("ACAD_ENHANCEDBLOCKHISTORY");
    lemma_lengths_differ("TSTACKSIZE"@, "ACAD_ENHANCEDBLOCKHISTORY"@);
    reveal_strlit("ASEBLOCKHIERARCHYINDEXRECORD");
    lemma_lengths_differ("TSTACKSIZE"@, "ASEBLOCKHIERARCHYINDEXRECORD"@);
    reveal_strlit("ADSK_XREC_LAYOUTTHUMBNAIL");
    lemma_lengths_differ("TSTACKSIZE"@, "ADSK_XREC_LAYOUTTHUMBNAIL"@);
    reveal_strlit("ADSK_XREC_VTRANIMATIONINFO");
    lemma_lengths_differ("TSTACKSIZE"@, "ADSK_XREC_VTRANIMATIONINFO"@);
    reveal_strlit("ADSK_XREC_VTRTHUMBNAIL");
    lemma_lengths_differ("TSTACKSIZE"@, "ADSK_XREC_VTRTHUMBNAIL"@);
    reveal_strlit("ADSK_XREC_VTRVIEWINFO");
    lemma_lengths_differ("TSTACKSIZE"@, "ADSK_XREC_VTRVIEWINFO"@);
    reveal_strlit("ADSK_XREC_PHOTOMETRICLIGHTINFO");
    lemma_lengths_differ("TSTACKSIZE"@, "ADSK_XREC_PHOTOMETRICLIGHTINFO"@);
    reveal_strlit("LIGHTINGQUALITY");
    lemma_lengths_differ("TSTACKSIZE"@, "LIGHTINGQUALITY"@);
    reveal_strlit("ACAD_LAST_SAVED_VERSION_INFO");
    lemma_lengths_differ("TSTACKSIZE"@, "ACAD_LAST_SAVED_VERSION_INFO"@);
    reveal_strlit("ACAD_CIP_PREVIOUS_PRODUCT_INFO");
    lemma_lengths_differ("TSTACKSIZE"@, "ACAD_CIP_PREVIOUS_PRODUCT_INFO"@);
    reveal_strlit("DWGPROPS");
    lemma_lengths_differ("TSTACKSIZE"@, "DWGPROPS"@);
    reveal_strlit("FINGERPRINTGUID");
    lemma_lengths_differ("TSTACKSIZE"@, "FINGERPRINTGUID"@);
    reveal_strlit("ACADDIM");
    lemma_lengths_differ("TSTACKSIZE"@, "ACADDIM"@);
    reveal_strlit("DIMSTYLEDATA");
    lemma_lengths_differ("TSTACKSIZE"@, "DIMSTYLEDATA"@);
    reveal_strlit("DIMLTEX1");
    lemma_lengths_differ("TSTACKSIZE"@, "DIMLTEX1"@);
    reveal_strlit("DIMLTEX2");
    lemma_lengths_differ("TSTACKSIZE"@, "DIMLTEX2"@);
    reveal_strlit("DIMLTYPE");
    lemma_lengths_differ("TSTACKSIZE"@, "DIMLTYPE"@);
    reveal_strlit("TSTACKALIGN");
    lemma_lengths_differ("TSTACKSIZE"@, "TSTACKALIGN"@);
    law_kind_ignores_case(s, "TSTACKSIZE"@);
}

proof fn lemma_key_35(s: Seq<char>)
    requires
        eq_ci(s, "PUCSBASE"@),
    ensures
        known_kind_of(s) == KnownXRecordKind::UcsData,
{
    reveal_strlit("PUCSBASE");
    reveal_strlit("ADSK_XREC_LAYER_ALPHA_OVR");
    lemma_lengths_differ("PUCSBASE"@, "ADSK_XREC_LAYER_ALPHA_OVR"@);
    reveal_strlit("ADSK_XREC_LAYER_COLOR_OVR");
    lemma_lengths_differ("PUCSBASE"@, "ADSK_XREC_LAYER_COLOR_OVR"@);
    reveal_strlit("ADSK_XREC_LAYER_LINETYPE_OVR");
    lemma_lengths_differ("PUCSBASE"@, "ADSK_XREC_LAYER_LINETYPE_OVR"@);
    reveal_strlit("ADSK_XREC_LAYER_LINEWT_OVR");
    lemma_lengths_differ("PUCSBASE"@, "ADSK_XREC_LAYER_LINEWT_OVR"@);
    reveal_strlit("ADSK_XREC_LAYER_RECONCILED");
    lemma_lengths_differ("PUCSBASE"@, "ADSK_XREC_LAYER_RECONCILED"@);
    reveal_strlit("ACADLAYERSTATEANNOSCALE");
    lemma_lengths_differ("PUCSBASE"@, "ACADLAYERSTATEANNOSCALE"@);
    reveal_strlit("ASDK_XREC_ANNOTATION_SCALE_INFO");
    lemma_lengths_differ("PUCSBASE"@, "ASDK_XREC_ANNOTATION_SCALE_INFO"@);
    reveal_strlit("ASDK_XREC_ANNO_SCALE_INFO");
    lemma_lengths_differ("PUCSBASE"@, "ASDK_XREC_ANNO_SCALE_INFO"@);
    reveal_strlit("ADSK_XREC_VTR_ANNOSCALE_DATA");
    lemma_lengths_differ("PUCSBASE"@, "ADSK_XREC_VTR_ANNOSCALE_DATA"@);
    reveal_strlit("ADSK_XREC_SUBDVERTEXTEXCOORDS");
    lemma_lengths_differ("PUCSBASE"@, "ADSK_XREC_SUBDVERTEXTEXCOORDS"@);
    reveal_strlit("ACAD_XREC_ROUNDTRIP");
    lemma_lengths_differ("PUCSBASE"@, "ACAD_XREC_ROUNDTRIP"@);
    reveal_strlit("ACAD_MTEXT_RT");
    lemma_lengths_differ("PUCSBASE"@, "ACAD_MTEXT_RT"@);
    reveal_strlit("ACAD_MTEXT_2008_RT");
    lemma_lengths_differ("PUCSBASE"@, "ACAD_MTEXT_2008_RT"@);
    reveal_strlit("ACDBHEADERROUNDTRIPXREC");
    lemma_lengths_differ("PUCSBASE"@, "ACDBHEADERROUNDTRIPXREC"@);
    reveal_strlit("AUXHDRRNDTRIPDATA");
    lemma_lengths_differ("PUCSBASE"@, "AUXHDRRNDTRIPDATA"@);
    reveal_strlit("ACDB_RECOMPOSE_DATA");
    lemma_lengths_differ("PUCSBASE"@, "ACDB_RECOMPOSE_DATA"@);
    reveal_strlit("ACAD_ENHANCEDBLOCKHISTORY");
    lemma_lengths_differ("PUCSBASE"@, "ACAD_ENHANCEDBLOCKHISTORY"@);
    reveal_strlit("ASEBLOCKHIERARCHYINDEXRECORD");
    lemma_lengths_differ("PUCSBASE"@, "ASEBLOCKHIERARCHYINDEXRECORD"@);
    reveal_strlit("ADSK_XREC_LAYOUTTHUMBNAIL");
    lemma_lengths_differ("PUCSBASE"@, "ADSK_XREC_LAYOUTTHUMBNAIL"@);
    reveal_strlit("ADSK_XREC_VTRANIMATIONINFO");
    lemma_lengths_differ("PUCSBASE"@, "ADSK_XREC_VTRANIMATIONINFO"@);
    reveal_strlit("ADSK_XREC_VTRTHUMBNAIL");
    lemma_lengths_differ("PUCSBASE"@, "ADSK_XREC_VTRTHUMBNAIL"@);
    reveal_strlit("ADSK_XREC_VTRVIEWINFO");
    lemma_lengths_differ("PUCSBASE"@, "ADSK_XREC_VTRVIEWINFO"@);
    reveal_strlit("ADSK_XREC_PHOTOMETRICLIGHTINFO");
    lemma_lengths_differ("PUCSBASE"@, "ADSK_XREC_PHOTOMETRICLIGHTINFO"@);
    reveal_strlit("LIGHTINGQUALITY");
    lemma_lengths_differ("PUCSBASE"@, "LIGHTINGQUALITY"@);
    reveal_strlit("ACAD_LAST_SAVED_VERSION_INFO");
    lemma_lengths_differ("PUCSBASE"@, "ACAD_LAST_SAVED_VERSION_INFO"@);
    reveal_strlit("ACAD_CIP_PREVIOUS_PRODUCT_INFO");
    lemma_lengths_differ("PUCSBASE"@, "ACAD_CIP_PREVIOUS_PRODUCT_INFO"@);
    reveal_strlit("DWGPROPS");
    lemma_differ_at("PUCSBASE"@, "DWGPROPS"@, 0);
    reveal_strlit("FINGERPRINTGUID");
    lemma_lengths_differ("PUCSBASE"@, "FINGERPRINTGUID"@);
    reveal_strlit("ACADDIM");
    lemma_lengths_differ("PUCSBASE"@, "ACADDIM"@);
    reveal_strlit("DIMSTYLEDATA");
    lemma_lengths_differ("PUCSBASE"@, "DIMSTYLEDATA"@);
    reveal_strlit("DIMLTEX1");
    lemma_differ_at("PUCSBASE"@, "DIMLTEX1"@, 0);
    reveal_strlit("DIMLTEX2");
    lemma_differ_at("PUCSBASE"@, "DIMLTEX2"@, 0);
    reveal_strlit("DIMLTYPE");
    lemma_differ_at("PUCSBASE"@, "DIMLTYPE"@, 0);
    reveal_strlit("TSTACKALIGN");
    lemma_lengths_differ("PUCSBASE"@, "TSTACKALIGN"@);
    reveal_strlit("TSTACKSIZE");
    lemma_lengths_differ("PUCSBASE"@, "TSTACKSIZE"@);
    law_kind_ignores_case(s, "PUCSBASE"@);
}

proof fn lemma_key_36(s: Seq<char>)
    requires
        eq_ci(s, "PUCSORGBACK"@),
    ensures
        known_kind_of(s) == KnownXRecordKind::UcsData,
{
    reveal_strlit("PUCSORGBACK");
    reveal_strlit("ADSK_XREC_LAYER_ALPHA_OVR");
    lemma_lengths_differ("PUCSORGBACK"@, "ADSK_XREC_LAYER_ALPHA_OVR"@);
    reveal_strlit("ADSK_XREC_LAYER_COLOR_OVR");
    lemma_lengths_differ("PUCSORGBACK"@, "ADSK_XREC_LAYER_COLOR_OVR"@);
    reveal_strlit("ADSK_XREC_LAYER_LINETYPE_OVR");
    lemma_lengths_differ("PUCSORGBACK"@, "ADSK_XREC_LAYER_LINETYPE_OVR"@);
    reveal_strlit("ADSK_XREC_LAYER_LINEWT_OVR");
    lemma_lengths_differ("PUCSORGBACK"@, "ADSK_XREC_LAYER_LINEWT_OVR"@);
    reveal_strlit("ADSK_XREC_LAYER_RECONCILED");
    lemma_lengths_differ("PUCSORGBACK"@, "ADSK_XREC_LAYER_RECONCILED"@);
    reveal_strlit("ACADLAYERSTATEANNOSCALE");
    lemma_lengths_differ("PUCSORGBACK"@, "ACADLAYERSTATEANNOSCALE"@);
    reveal_strlit("ASDK_XREC_ANNOTATION_SCALE_INFO");
    lemma_lengths_differ("PUCSORGBACK"@, "ASDK_XREC_ANNOTATION_SCALE_INFO"@);
    reveal_strlit("ASDK_XREC_ANNO_SCALE_INFO");
    lemma_lengths_differ("PUCSORGBACK"@, "ASDK_XREC_ANNO_SCALE_INFO"@);
    reveal_strlit("ADSK_XREC_VTR_ANNOSCALE_DATA");
    lemma_lengths_differ("PUCSORGBACK"@, "ADSK_XREC_VTR_ANNOSCALE_DATA"@);
    reveal_strlit("ADSK_XREC_SUBDVERTEXTEXCOORDS");
    lemma_lengths_differ("PUCSORGBACK"@, "ADSK_XREC_SUBDVERTEXTEXCOORDS"@);
    reveal_strlit("ACAD_XREC_ROUNDTRIP");
    lemma_lengths_differ("PUCSORGBACK"@, "ACAD_XREC_ROUNDTRIP"@);
    reveal_strlit("ACAD_MTEXT_RT");
    lemma_lengths_differ("PUCSORGBACK"@, "ACAD_MTEXT_RT"@);
    reveal_strlit("ACAD_MTEXT_2008_RT");
    lemma_lengths_differ("PUCSORGBACK"@, "ACAD_MTEXT_2008_RT"@);
    reveal_strlit("ACDBHEADERROUNDTRIPXREC");
    lemma_lengths_differ("PUCSORGBACK"@, "ACDBHEADERROUNDTRIPXREC"@);
    reveal_strlit("AUXHDRRNDTRIPDATA");
    lemma_lengths_differ("PUCSORGBACK"@, "AUXHDRRNDTRIPDATA"@);
    reveal_strlit("ACDB_RECOMPOSE_DATA");
    lemma_lengths_differ("PUCSORGBACK"@, "ACDB_RECOMPOSE_DATA"@);
    reveal_strlit("ACAD_ENHANCEDBLOCKHISTORY");
    lemma_lengths_differ("PUCSORGBACK"@, "ACAD_ENHANCEDBLOCKHISTORY"@);
    reveal_strlit("ASEBLOCKHIERARCHYINDEXRECORD");
    lemma_lengths_differ("PUCSORGBACK"@, "ASEBLOCKHIERARCHYINDEXRECORD"@);
    reveal_strlit("ADSK_XREC_LAYOUTTHUMBNAIL");
    lemma_lengths_differ("PUCSORGBACK"@, "ADSK_XREC_LAYOUTTHUMBNAIL"@);
    reveal_strlit("ADSK_XREC_VTRANIMATIONINFO");
    lemma_lengths_differ("PUCSORGBACK"@, "ADSK_XREC_VTRANIMATIONINFO"@);
    reveal_strlit("ADSK_XREC_VTRTHUMBNAIL");
    lemma_lengths_differ("PUCSORGBACK"@, "ADSK_XREC_VTRTHUMBNAIL"@);
    reveal_strlit("ADSK_XREC_VTRVIEWINFO");
    lemma_lengths_differ("PUCSORGBACK"@, "ADSK_XREC_VTRVIEWINFO"@);
    reveal_strlit("ADSK_XREC_PHOTOMETRICLIGHTINFO");
    lemma_lengths_differ("PUCSORGBACK"@, "ADSK_XREC_PHOTOMETRICLIGHTINFO"@);
    reveal_strlit("LIGHTINGQUALITY");
    lemma_lengths_differ("PUCSORGBACK"@, "LIGHTINGQUALITY"@);
    reveal_strlit("ACAD_LAST_SAVED_VERSION_INFO");
    lemma_lengths_differ("PUCSORGBACK"@, "ACAD_LAST_SAVED_VERSION_INFO"@);
    reveal_strlit("ACAD_CIP_PREVIOUS_PRODUCT_INFO");
    lemma_lengths_differ("PUCSORGBACK"@, "ACAD_CIP_PREVIOUS_PRODUCT_INFO"@);
    reveal_strlit("DWGPROPS");
    lemma_lengths_differ("PUCSORGBACK"@, "DWGPROPS"@);
    reveal_strlit("FINGERPRINTGUID");
    lemma_lengths_differ("PUCSORGBACK"@, "FINGERPRINTGUID"@);
    reveal_strlit("ACADDIM");
    lemma_lengths_differ("PUCSORGBACK"@, "ACADDIM"@);
    reveal_strlit("DIMSTYLEDATA");
    lemma_lengths_differ("PUCSORGBACK"@, "DIMSTYLEDATA"@);
    reveal_strlit("DIMLTEX1");
    lemma_lengths_differ("PUCSORGBACK"@, "DIMLTEX1"@);
    reveal_strlit("DIMLTEX2");
    lemma_lengths_differ("PUCSORGBACK"@, "DIMLTEX2"@);
    reveal_strlit("DIMLTYPE");
    lemma_lengths_differ("PUCSORGBACK"@, "DIMLTYPE"@);
    reveal_strlit("TSTACKALIGN");
    lemma_differ_at("PUCSORGBACK"@, "TSTACKALIGN"@, 0);
    reveal_strlit("TSTACKSIZE");
    lemma_lengths_differ("PUCSORGBACK"@, "TSTACKSIZE"@);
    reveal_strlit("PUCSBASE");
    lemma_lengths_differ("PUCSORGBACK"@, "PUCSBASE"@);
    law_kind_ignores_case(s, "PUCSORGBACK"@);
}

proof fn lemma_key_37(s: Seq<char>)
    requires
        eq_ci(s, "PUCSORGBOTTOM"@),
    ensures
        known_kind_of(s) == KnownXRecordKind::UcsData,
{
    reveal_strlit("PUCSORGBOTTOM");
    reveal_strlit("ADSK_XREC_LAYER_ALPHA_OVR");
    lemma_lengths_differ("PUCSORGBOTTOM"@, "ADSK_XREC_LAYER_ALPHA_OVR"@);
    reveal_strlit("ADSK_XREC_LAYER_COLOR_OVR");
    lemma_lengths_differ("PUCSORGBOTTOM"@, "ADSK_XREC_LAYER_COLOR_OVR"@);
    reveal_strlit("ADSK_XREC_LAYER_LINETYPE_OVR");
    lemma_lengths_differ("PUCSORGBOTTOM"@, "ADSK_XREC_LAYER_LINETYPE_OVR"@);
    reveal_strlit("ADSK_XREC_LAYER_LINEWT_OVR");
    lemma_lengths_differ("PUCSORGBOTTOM"@, "ADSK_XREC_LAYER_LINEWT_OVR"@);
    reveal_strlit("ADSK_XREC_LAYER_RECONCILED");
    lemma_lengths_differ("PUCSORGBOTTOM"@, "ADSK_XREC_LAYER_RECONCILED"@);
    reveal_strlit("ACADLAYERSTATEANNOSCALE");
    lemma_lengths_differ("PUCSORGBOTTOM"@, "ACADLAYERSTATEANNOSCALE"@);
    reveal_strlit("ASDK_XREC_ANNOTATION_SCALE_INFO");
    lemma_lengths_differ("PUCSORGBOTTOM"@, "ASDK_XREC_ANNOTATION_SCALE_INFO"@);
    reveal_strlit("ASDK_XREC_ANNO_SCALE_INFO");
    lemma_lengths_differ("PUCSORGBOTTOM"@, "ASDK_XREC_ANNO_SCALE_INFO"@);
    reveal_strlit("ADSK_XREC_VTR_ANNOSCALE_DATA");
    lemma_lengths_differ("PUCSORGBOTTOM"@, "ADSK_XREC_VTR_ANNOSCALE_DATA"@);
    reveal_strlit("ADSK_XREC_SUBDVERTEXTEXCOORDS");
    lemma_lengths_differ("PUCSORGBOTTOM"@, "ADSK_XREC_SUBDVERTEXTEXCOORDS"@);
    reveal_strlit("ACAD_XREC_ROUNDTRIP");
    lemma_lengths_differ("PUCSORGBOTTOM"@, "ACAD_XREC_ROUNDTRIP"@);
    reveal_strlit("ACAD_MTEXT_RT");
    lemma_differ_at("PUCSORGBOTTOM"@, "ACAD_MTEXT_RT"@, 0);
    reveal_strlit("ACAD_MTEXT_2008_RT");
    lemma_lengths_differ("PUCSORGBOTTOM"@, "ACAD_MTEXT_2008_RT"@);
    reveal_strlit("ACDBHEADERROUNDTRIPXREC");
    lemma_lengths_differ("PUCSORGBOTTOM"@, "ACDBHEADERROUNDTRIPXREC"@);
    reveal_strlit("AUXHDRRNDTRIPDATA");
    lemma_lengths_differ("PUCSORGBOTTOM"@, "AUXHDRRNDTRIPDATA"@);
    reveal_strlit("ACDB_RECOMPOSE_DATA");
    lemma_lengths_differ("PUCSORGBOTTOM"@, "ACDB_RECOMPOSE_DATA"@);
    reveal_strlit("ACAD_ENHANCEDBLOCKHISTORY");
    lemma_lengths_differ("PUCSORGBOTTOM"@, "ACAD_ENHANCEDBLOCKHISTORY"@);
    reveal_strlit("ASEBLOCKHIERARCHYINDEXRECORD");
    lemma_lengths_differ("PUCSORGBOTTOM"@, "ASEBLOCKHIERARCHYINDEXRECORD"@);
    reveal_strlit("ADSK_XREC_LAYOUTTHUMBNAIL");
    lemma_lengths_differ("PUCSORGBOTTOM"@, "ADSK_XREC_LAYOUTTHUMBNAIL"@);
    reveal_strlit("ADSK_XREC_VTRANIMATIONINFO");
    lemma_lengths_differ("PUCSORGBOTTOM"@, "ADSK_XREC_VTRANIMATIONINFO"@);
    reveal_strlit("ADSK_XREC_VTRTHUMBNAIL");
    lemma_lengths_differ("PUCSORGBOTTOM"@, "ADSK_XREC_VTRTHUMBNAIL"@);
    reveal_strlit("ADSK_XREC_VTRVIEWINFO");
    lemma_lengths_differ("PUCSORGBOTTOM"@, "ADSK_XREC_VTRVIEWINFO"@);
    reveal_strlit("ADSK_XREC_PHOTOMETRICLIGHTINFO");
    lemma_lengths_differ("PUCSORGBOTTOM"@, "ADSK_XREC_PHOTOMETRICLIGHTINFO"@);
    reveal_strlit("LIGHTINGQUALITY");
    lemma_lengths_differ("PUCSORGBOTTOM"@, "LIGHTINGQUALITY"@);
    reveal_strlit("ACAD_LAST_SAVED_VERSION_INFO");
    lemma_lengths_differ("PUCSORGBOTTOM"@, "ACAD_LAST_SAVED_VERSION_INFO"@);
    reveal_strlit("ACAD_CIP_PREVIOUS_PRODUCT_INFO");
    lemma_lengths_differ("PUCSORGBOTTOM"@, "ACAD_CIP_PREVIOUS_PRODUCT_INFO"@);
    reveal_strlit("DWGPROPS");
    lemma_lengths_differ("PUCSORGBOTTOM"@, "DWGPROPS"@);
    reveal_strlit("FINGERPRINTGUID");
    lemma_lengths_differ("PUCSORGBOTTOM"@, "FINGERPRINTGUID"@);
    reveal_strlit("ACADDIM");
    lemma_lengths_differ("PUCSORGBOTTOM"@, "ACADDIM"@);
    reveal_strlit("DIMSTYLEDATA");
    lemma_lengths_differ("PUCSORGBOTTOM"@, "DIMSTYLEDATA"@);
    reveal_strlit("DIMLTEX1");
    lemma_lengths_differ("PUCSORGBOTTOM"@, "DIMLTEX1"@);
    reveal_strlit("DIMLTEX2");
    lemma_lengths_differ("PUCSORGBOTTOM"@, "DIMLTEX2"@);
    reveal_strlit("DIMLTYPE");
    lemma_lengths_differ("PUCSORGBOTTOM"@, "DIMLTYPE"@);
    reveal_strlit("TSTACKALIGN");
    lemma_lengths_differ("PUCSORGBOTTOM"@, "TSTACKALIGN"@);
    reveal_strlit("TSTACKSIZE");
    lemma_lengths_differ("PUCSORGBOTTOM"@, "TSTACKSIZE"@);
    reveal_strlit("PUCSBASE");
    lemma_lengths_differ("PUCSORGBOTTOM"@, "PUCSBASE"@);
    reveal_strlit("PUCSORGBACK");
    lemma_lengths_differ("PUCSORGBOTTOM"@, "PUCSORGBACK"@);
    law_kind_ignores_case(s, "PUCSORGBOTTOM"@);
}

proof fn lemma_key_38(s: Seq<char>)
    requires
        eq_ci(s, "PUCSORGFRONT"@),
    ensures
        known_kind_of(s) == KnownXRecordKind::UcsData,
{
    reveal_strlit("PUCSORGFRONT");
    reveal_strlit("ADSK_XREC_LAYER_ALPHA_OVR");
    lemma_lengths_differ("PUCSORGFRONT"@, "ADSK_XREC_LAYER_ALPHA_OVR"@);
    reveal_strlit("ADSK_XREC_LAYER_COLOR_OVR");
    lemma_lengths_differ("PUCSORGFRONT"@, "ADSK_XREC_LAYER_COLOR_OVR"@);
    reveal_strlit("ADSK_XREC_LAYER_LINETYPE_OVR");
    lemma_lengths_differ("PUCSORGFRONT"@, "ADSK_XREC_LAYER_LINETYPE_OVR"@);
    reveal_strlit("ADSK_XREC_LAYER_LINEWT_OVR");
    lemma_lengths_differ("PUCSORGFRONT"@, "ADSK_XREC_LAYER_LINEWT_OVR"@);
    reveal_strlit("ADSK_XREC_LAYER_RECONCILED");
    lemma_lengths_differ("PUCSORGFRONT"@, "ADSK_XREC_LAYER_RECONCILED"@);
    reveal_strlit("ACADLAYERSTATEANNOSCALE");
    lemma_lengths_differ("PUCSORGFRONT"@, "ACADLAYERSTATEANNOSCALE"@);
    reveal_strlit("ASDK_XREC_ANNOTATION_SCALE_INFO");
    lemma_lengths_differ("PUCSORGFRONT"@, "ASDK_XREC_ANNOTATION_SCALE_INFO"@);
    reveal_strlit("ASDK_XREC_ANNO_SCALE_INFO");
    lemma_lengths_differ("PUCSORGFRONT"@, "ASDK_XREC_ANNO_SCALE_INFO"@);
    reveal_strlit("ADSK_XREC_VTR_ANNOSCALE_DATA");
    lemma_lengths_differ("PUCSORGFRONT"@, "ADSK_XREC_VTR_ANNOSCALE_DATA"@);
    reveal_strlit("ADSK_XREC_SUBDVERTEXTEXCOORDS");
    lemma_lengths_differ("PUCSORGFRONT"@, "ADSK_XREC_SUBDVERTEXTEXCOORDS"@);
    reveal_strlit("ACAD_XREC_ROUNDTRIP");
    lemma_lengths_differ("PUCSORGFRONT"@, "ACAD_XREC_ROUNDTRIP"@);
    reveal_strlit("ACAD_MTEXT_RT");
    lemma_lengths_differ("PUCSORGFRONT"@, "ACAD_MTEXT_RT"@);
    reveal_strlit("ACAD_MTEXT_2008_RT");
    lemma_lengths_differ("PUCSORGFRONT"@, "ACAD_MTEXT_2008_RT"@);
    reveal_strlit("ACDBHEADERROUNDTRIPXREC");
    lemma_lengths_differ("PUCSORGFRONT"@, "ACDBHEADERROUNDTRIPXREC"@);
    reveal_strlit("AUXHDRRNDTRIPDATA");
    lemma_lengths_differ("PUCSORGFRONT"@, "AUXHDRRNDTRIPDATA"@);
    reveal_strlit("ACDB_RECOMPOSE_DATA");
    lemma_lengths_differ("PUCSORGFRONT"@, "ACDB_RECOMPOSE_DATA"@);
    reveal_strlit("ACAD_ENHANCEDBLOCKHISTORY");
    lemma_lengths_differ("PUCSORGFRONT"@, "ACAD_ENHANCEDBLOCKHISTORY"@);
    reveal_strlit("ASEBLOCKHIERARCHYINDEXRECORD");
    lemma_lengths_differ("PUCSORGFRONT"@, "ASEBLOCKHIERARCHYINDEXRECORD"@);
    reveal_strlit("ADSK_XREC_LAYOUTTHUMBNAIL");
    lemma_lengths_differ("PUCSORGFRONT"@, "ADSK_XREC_LAYOUTTHUMBNAIL"@);
    reveal_strlit("ADSK_XREC_VTRANIMATIONINFO");
    lemma_lengths_differ("PUCSORGFRONT"@, "ADSK_XREC_VTRANIMATIONINFO"@);
    reveal_strlit("ADSK_XREC_VTRTHUMBNAIL");
    lemma_lengths_differ("PUCSORGFRONT"@, "ADSK_XREC_VTRTHUMBNAIL"@);
    reveal_strlit("ADSK_XREC_VTRVIEWINFO");
    lemma_lengths_differ("PUCSORGFRONT"@, "ADSK_XREC_VTRVIEWINFO"@);
    reveal_strlit("ADSK_XREC_PHOTOMETRICLIGHTINFO");
    lemma_lengths_differ("PUCSORGFRONT"@, "ADSK_XREC_PHOTOMETRICLIGHTINFO"@);
    reveal_strlit("LIGHTINGQUALITY");
    lemma_lengths_differ("PUCSORGFRONT"@, "LIGHTINGQUALITY"@);
    reveal_strlit("ACAD_LAST_SAVED_VERSION_INFO");
    lemma_lengths_differ("PUCSORGFRONT"@, "ACAD_LAST_SAVED_VERSION_INFO"@);
    reveal_strlit("ACAD_CIP_PREVIOUS_PRODUCT_INFO");
    lemma_lengths_differ("PUCSORGFRONT"@, "ACAD_CIP_PREVIOUS_PRODUCT_INFO"@);
    reveal_strlit("DWGPROPS");
    lemma_lengths_differ("PUCSORGFRONT"@, "DWGPROPS"@);
    reveal_strlit("FINGERPRINTGUID");
    lemma_lengths_differ("PUCSORGFRONT"@, "FINGERPRINTGUID"@);
    reveal_strlit("ACADDIM");
    lemma_lengths_differ("PUCSORGFRONT"@, "ACADDIM"@);
    reveal_strlit("DIMSTYLEDATA");
    lemma_differ_at("PUCSORGFRONT"@, "DIMSTYLEDATA"@, 0);
    reveal_strlit("DIMLTEX1");
    lemma_lengths_differ("PUCSORGFRONT"@, "DIMLTEX1"@);
    reveal_strlit("DIMLTEX2");
    lemma_lengths_differ("PUCSORGFRONT"@, "DIMLTEX2"@);
    reveal_strlit("DIMLTYPE");
    lemma_lengths_differ("PUCSORGFRONT"@, "DIMLTYPE"@);
    reveal_strlit("TSTACKALIGN");
    lemma_lengths_differ("PUCSORGFRONT"@, "TSTACKALIGN"@);
    reveal_strlit("TSTACKSIZE");
    lemma_lengths_differ("PUCSORGFRONT"@, "TSTACKSIZE"@);
    reveal_strlit("PUCSBASE");
    lemma_lengths_differ("PUCSORGFRONT"@, "PUCSBASE"@);
    reveal_strlit("PUCSORGBACK");
    lemma_lengths_differ("PUCSORGFRONT"@, "PUCSORGBACK"@);
    reveal_strlit("PUCSORGBOTTOM");
    lemma_lengths_differ("PUCSORGFRONT"@, "PUCSORGBOTTOM"@);
    law_kind_ignores_case(s, "PUCSORGFRONT"@);
}

proof fn lemma_key_39(s: Seq<char>)
    requires
        eq_ci(s, "PUCSORGLEFT"@),
    ensures
        known_kind_of(s) == KnownXRecordKind::UcsData,
{
    reveal_strlit("PUCSORGLEFT");
    reveal_strlit("ADSK_XREC_LAYER_ALPHA_OVR");
    lemma_lengths_differ("PUCSORGLEFT"@, "ADSK_XREC_LAYER_ALPHA_OVR"@);
    reveal_strlit("ADSK_XREC_LAYER_COLOR_OVR");
    lemma_lengths_differ("PUCSORGLEFT"@, "ADSK_XREC_LAYER_COLOR_OVR"@);
    reveal_strlit("ADSK_XREC_LAYER_LINETYPE_OVR");
    lemma_lengths_differ("PUCSORGLEFT"@, "ADSK_XREC_LAYER_LINETYPE_OVR"@);
    reveal_strlit("ADSK_XREC_LAYER_LINEWT_OVR");
    lemma_lengths_differ("PUCSORGLEFT"@, "ADSK_XREC_LAYER_LINEWT_OVR"@);
    reveal_strlit("ADSK_XREC_LAYER_RECONCILED");
    lemma_lengths_differ("PUCSORGLEFT"@, "ADSK_XREC_LAYER_RECONCILED"@);
    reveal_strlit("ACADLAYERSTATEANNOSCALE");
    lemma_lengths_differ("PUCSORGLEFT"@, "ACADLAYERSTATEANNOSCALE"@);
    reveal_strlit("ASDK_XREC_ANNOTATION_SCALE_INFO");
    lemma_lengths_differ("PUCSORGLEFT"@, "ASDK_XREC_ANNOTATION_SCALE_INFO"@);
    reveal_strlit("ASDK_XREC_ANNO_SCALE_INFO");
    lemma_lengths_differ("PUCSORGLEFT"@, "ASDK_XREC_ANNO_SCALE_INFO"@);
    reveal_strlit("ADSK_XREC_VTR_ANNOSCALE_DATA");
    lemma_lengths_differ("PUCSORGLEFT"@, "ADSK_XREC_VTR_ANNOSCALE_DATA"@);
    reveal_strlit("ADSK_XREC_SUBDVERTEXTEXCOORDS");
    lemma_lengths_differ("PUCSORGLEFT"@, "ADSK_XREC_SUBDVERTEXTEXCOORDS"@);
    reveal_strlit("ACAD_XREC_ROUNDTRIP");
    lemma_lengths_differ("PUCSORGLEFT"@, "ACAD_XREC_ROUNDTRIP"@);
    reveal_strlit("ACAD_MTEXT_RT");
    lemma_lengths_differ("PUCSORGLEFT"@, "ACAD_MTEXT_RT"@);
    reveal_strlit("ACAD_MTEXT_2008_RT");
    lemma_lengths_differ("PUCSORGLEFT"@, "ACAD_MTEXT_2008_RT"@);
    reveal_strlit("ACDBHEADERROUNDTRIPXREC");
    lemma_lengths_differ("PUCSORGLEFT"@, "ACDBHEADERROUNDTRIPXREC"@);
    reveal_strlit("AUXHDRRNDTRIPDATA");
    lemma_lengths_differ("PUCSORGLEFT"@, "AUXHDRRNDTRIPDATA"@);
    reveal_strlit("ACDB_RECOMPOSE_DATA");
    lemma_lengths_differ("PUCSORGLEFT"@, "ACDB_RECOMPOSE_DATA"@);
    reveal_strlit("ACAD_ENHANCEDBLOCKHISTORY");
    lemma_lengths_differ("PUCSORGLEFT"@, "ACAD_ENHANCEDBLOCKHISTORY"@);
    reveal_strlit("ASEBLOCKHIERARCHYINDEXRECORD");
    lemma_lengths_differ("PUCSORGLEFT"@, "ASEBLOCKHIERARCHYINDEXRECORD"@);
    reveal_strlit("ADSK_XREC_LAYOUTTHUMBNAIL");
    lemma_lengths_differ("PUCSORGLEFT"@, "ADSK_XREC_LAYOUTTHUMBNAIL"@);
    reveal_strlit("ADSK_XREC_VTRANIMATIONINFO");
    lemma_lengths_differ("PUCSORGLEFT"@, "ADSK_XREC_VTRANIMATIONINFO"@);
    reveal_strlit("ADSK_XREC_VTRTHUMBNAIL");
    lemma_lengths_differ("PUCSORGLEFT"@, "ADSK_XREC_VTRTHUMBNAIL"@);
    reveal_strlit("ADSK_XREC_VTRVIEWINFO");
    lemma_lengths_differ("PUCSORGLEFT"@, "ADSK_XREC_VTRVIEWINFO"@);
    reveal_strlit("ADSK_XREC_PHOTOMETRICLIGHTINFO");
    lemma_lengths_differ("PUCSORGLEFT"@, "ADSK_XREC_PHOTOMETRICLIGHTINFO"@);
    reveal_strlit("LIGHTINGQUALITY");
    lemma_lengths_differ("PUCSORGLEFT"@, "LIGHTINGQUALITY"@);
    reveal_strlit("ACAD_LAST_SAVED_VERSION_INFO");
    lemma_lengths_differ("PUCSORGLEFT"@, "ACAD_LAST_SAVED_VERSION_INFO"@);
    reveal_strlit("ACAD_CIP_PREVIOUS_PRODUCT_INFO");
    lemma_lengths_differ("PUCSORGLEFT"@, "ACAD_CIP_PREVIOUS_PRODUCT_INFO"@);
    reveal_strlit("DWGPROPS");
    lemma_lengths_differ("PUCSORGLEFT"@, "DWGPROPS"@);
    reveal_strlit("FINGERPRINTGUID");
    lemma_lengths_differ("PUCSORGLEFT"@, "FINGERPRINTGUID"@);
    reveal_strlit("ACADDIM");
    lemma_lengths_differ("PUCSORGLEFT"@, "ACADDIM"@);
    reveal_strlit("DIMSTYLEDATA");
    lemma_lengths_differ("PUCSORGLEFT"@, "DIMSTYLEDATA"@);
    reveal_strlit("DIMLTEX1");
    lemma_lengths_differ("PUCSORGLEFT"@, "DIMLTEX1"@);
    reveal_strlit("DIMLTEX2");
    lemma_lengths_differ("PUCSORGLEFT"@, "DIMLTEX2"@);
    reveal_strlit("DIMLTYPE");
    lemma_lengths_differ("PUCSORGLEFT"@, "DIMLTYPE"@);
    reveal_strlit("TSTACKALIGN");
    lemma_differ_at("PUCSORGLEFT"@, "TSTACKALIGN"@, 0);
    reveal_strlit("TSTACKSIZE");
    lemma_lengths_differ("PUCSORGLEFT"@, "TSTACKSIZE"@);
    reveal_strlit("PUCSBASE");
    lemma_lengths_differ("PUCSORGLEFT"@, "PUCSBASE"@);
    reveal_strlit("PUCSORGBACK");
    lemma_differ_at("PUCSORGLEFT"@, "PUCSORGBACK"@, 7);
    reveal_strlit("PUCSORGBOTTOM");
    lemma_lengths_differ("PUCSORGLEFT"@, "PUCSORGBOTTOM"@);
    reveal_strlit("PUCSORGFRONT");
    lemma_lengths_differ("PUCSORGLEFT"@, "PUCSORGFRONT"@);
    law_kind_ignores_case(s, "PUCSORGLEFT"@);
}

proof fn lemma_key_40(s: Seq<char>)
    requires
        eq_ci(s, "PUCSORGRIGHT"@),
    ensures
        known_kind_of(s) == KnownXRecordKind::UcsData,
{
    reveal_strlit("PUCSORGRIGHT");
    reveal_strlit("ADSK_XREC_LAYER_ALPHA_OVR");
    lemma_lengths_differ("PUCSORGRIGHT"@, "ADSK_XREC_LAYER_ALPHA_OVR"@);
    reveal_strlit("ADSK_XREC_LAYER_COLOR_OVR");
    lemma_lengths_differ("PUCSORGRIGHT"@, "ADSK_XREC_LAYER_COLOR_OVR"@);
    reveal_strlit("ADSK_XREC_LAYER_LINETYPE_OVR");
    lemma_lengths_differ("PUCSORGRIGHT"@, "ADSK_XREC_LAYER_LINETYPE_OVR"@);
    reveal_strlit("ADSK_XREC_LAYER_LINEWT_OVR");
    lemma_lengths_differ("PUCSORGRIGHT"@, "ADSK_XREC_LAYER_LINEWT_OVR"@);
    reveal_strlit("ADSK_XREC_LAYER_RECONCILED");
    lemma_lengths_differ("PUCSORGRIGHT"@, "ADSK_XREC_LAYER_RECONCILED"@);
    reveal_strlit("ACADLAYERSTATEANNOSCALE");
    lemma_lengths_differ("PUCSORGRIGHT"@, "ACADLAYERSTATEANNOSCALE"@);
    reveal_strlit("ASDK_XREC_ANNOTATION_SCALE_INFO");
    lemma_lengths_differ("PUCSORGRIGHT"@, "ASDK_XREC_ANNOTATION_SCALE_INFO"@);
    reveal_strlit("ASDK_XREC_ANNO_SCALE_INFO");
    lemma_lengths_differ("PUCSORGRIGHT"@, "ASDK_XREC_ANNO_SCALE_INFO"@);
    reveal_strlit("ADSK_XREC_VTR_ANNOSCALE_DATA");
    lemma_lengths_differ("PUCSORGRIGHT"@, "ADSK_XREC_VTR_ANNOSCALE_DATA"@);
    reveal_strlit("ADSK_XREC_SUBDVERTEXTEXCOORDS");
    lemma_lengths_differ("PUCSORGRIGHT"@, "ADSK_XREC_SUBDVERTEXTEXCOORDS"@);
    reveal_strlit("ACAD_XREC_ROUNDTRIP");
    lemma_lengths_differ("PUCSORGRIGHT"@, "ACAD_XREC_ROUNDTRIP"@);
    reveal_strlit("ACAD_MTEXT_RT");
    lemma_lengths_differ("PUCSORGRIGHT"@, "ACAD_MTEXT_RT"@);
    reveal_strlit("ACAD_MTEXT_2008_RT");
    lemma_lengths_differ("PUCSORGRIGHT"@, "ACAD_MTEXT_2008_RT"@);
    reveal_strlit("ACDBHEADERROUNDTRIPXREC");
    lemma_lengths_differ("PUCSORGRIGHT"@, "ACDBHEADERROUNDTRIPXREC"@);
    reveal_strlit("AUXHDRRNDTRIPDATA");
    lemma_lengths_differ("PUCSORGRIGHT"@, "AUXHDRRNDTRIPDATA"@);
    reveal_strlit("ACDB_RECOMPOSE_DATA");
    lemma_lengths_differ("PUCSORGRIGHT"@, "ACDB_RECOMPOSE_DATA"@);
    reveal_strlit("ACAD_ENHANCEDBLOCKHISTORY");
    lemma_lengths_differ("PUCSORGRIGHT"@, "ACAD_ENHANCEDBLOCKHISTORY"@);
    reveal_strlit("ASEBLOCKHIERARCHYINDEXRECORD");
    lemma_lengths_differ("PUCSORGRIGHT"@, "ASEBLOCKHIERARCHYINDEXRECORD"@);
    reveal_strlit("ADSK_XREC_LAYOUTTHUMBNAIL");
    lemma_lengths_differ("PUCSORGRIGHT"@, "ADSK_XREC_LAYOUTTHUMBNAIL"@);
    reveal_strlit("ADSK_XREC_VTRANIMATIONINFO");
    lemma_lengths_differ("PUCSORGRIGHT"@, "ADSK_XREC_VTRANIMATIONINFO"@);
    reveal_strlit("ADSK_XREC_VTRTHUMBNAIL");
    lemma_lengths_differ("PUCSORGRIGHT"@, "ADSK_XREC_VTRTHUMBNAIL"@);
    reveal_strlit("ADSK_XREC_VTRVIEWINFO");
    lemma_lengths_differ("PUCSORGRIGHT"@, "ADSK_XREC_VTRVIEWINFO"@);
    reveal_strlit("ADSK_XREC_PHOTOMETRICLIGHTINFO");
    lemma_lengths_differ("PUCSORGRIGHT"@, "ADSK_XREC_PHOTOMETRICLIGHTINFO"@);
    reveal_strlit("LIGHTINGQUALITY");
    lemma_lengths_differ("PUCSORGRIGHT"@, "LIGHTINGQUALITY"@);
    reveal_strlit("ACAD_LAST_SAVED_VERSION_INFO");
    lemma_lengths_differ("PUCSORGRIGHT"@, "ACAD_LAST_SAVED_VERSION_INFO"@);
    reveal_strlit("ACAD_CIP_PREVIOUS_PRODUCT_INFO");
    lemma_lengths_differ("PUCSORGRIGHT"@, "ACAD_CIP_PREVIOUS_PRODUCT_INFO"@);
    reveal_strlit("DWGPROPS");
    lemma_lengths_differ("PUCSORGRIGHT"@, "DWGPROPS"@);
    reveal_strlit("FINGERPRINTGUID");
    lemma_lengths_differ("PUCSORGRIGHT"@, "FINGERPRINTGUID"@);
    reveal_strlit("ACADDIM");
    lemma_lengths_differ("PUCSORGRIGHT"@, "ACADDIM"@);
    reveal_strlit("DIMSTYLEDATA");
    lemma_differ_at("PUCSORGRIGHT"@, "DIMSTYLEDATA"@, 0);
    reveal_strlit("DIMLTEX1");
    lemma_lengths_differ("PUCSORGRIGHT"@, "DIMLTEX1"@);
    reveal_strlit("DIMLTEX2");
    lemma_lengths_differ("PUCSORGRIGHT"@, "DIMLTEX2"@);
    reveal_strlit("DIMLTYPE");
    lemma_lengths_differ("PUCSORGRIGHT"@, "DIMLTYPE"@);
    reveal_strlit("TSTACKALIGN");
    lemma_lengths_differ("PUCSORGRIGHT"@, "TSTACKALIGN"@);
    reveal_strlit("TSTACKSIZE");
    lemma_lengths_differ("PUCSORGRIGHT"@, "TSTACKSIZE"@);
    reveal_strlit("PUCSBASE");
    lemma_lengths_differ("PUCSORGRIGHT"@, "PUCSBASE"@);
    reveal_strlit("PUCSORGBACK");
    lemma_lengths_differ("PUCSORGRIGHT"@, "PUCSORGBACK"@);
    reveal_strlit("PUCSORGBOTTOM");
    lemma_lengths_differ("PUCSORGRIGHT"@, "PUCSORGBOTTOM"@);
    reveal_strlit("PUCSORGFRONT");
    lemma_differ_at("PUCSORGRIGHT"@, "PUCSORGFRONT"@, 7);
    reveal_strlit("PUCSORGLEFT");
    lemma_lengths_differ("PUCSORGRIGHT"@, "PUCSORGLEFT"@);
    law_kind_ignores_case(s, "PUCSORGRIGHT"@);
}

proof fn lemma_key_41(s: Seq<char>)
    requires
        eq_ci(s, "PUCSORGTOP"@),
    ensures
        known_kind_of(s) == KnownXRecordKind::UcsData,
{
    reveal_strlit("PUCSORGTOP");
    reveal_strlit("ADSK_XREC_LAYER_ALPHA_OVR");
    lemma_lengths_differ("PUCSORGTOP"@, "ADSK_XREC_LAYER_ALPHA_OVR"@);
    reveal_strlit("ADSK_XREC_LAYER_COLOR_OVR");
    lemma_lengths_differ("PUCSORGTOP"@, "ADSK_XREC_LAYER_COLOR_OVR"@);
    reveal_strlit("ADSK_XREC_LAYER_LINETYPE_OVR");
    lemma_lengths_differ("PUCSORGTOP"@, "ADSK_XREC_LAYER_LINETYPE_OVR"@);
    reveal_strlit("ADSK_XREC_LAYER_LINEWT_OVR");
    lemma_lengths_differ("PUCSORGTOP"@, "ADSK_XREC_LAYER_LINEWT_OVR"@);
    reveal_strlit("ADSK_XREC_LAYER_RECONCILED");
    lemma_lengths_differ("PUCSORGTOP"@, "ADSK_XREC_LAYER_RECONCILED"@);
    reveal_strlit("ACADLAYERSTATEANNOSCALE");
    lemma_lengths_differ("PUCSORGTOP"@, "ACADLAYERSTATEANNOSCALE"@);
    reveal_strlit("ASDK_XREC_ANNOTATION_SCALE_INFO");
    lemma_lengths_differ("PUCSORGTOP"@, "ASDK_XREC_ANNOTATION_SCALE_INFO"@);
    reveal_strlit("ASDK_XREC_ANNO_SCALE_INFO");
    lemma_lengths_differ("PUCSORGTOP"@, "ASDK_XREC_ANNO_SCALE_INFO"@);
    reveal_strlit("ADSK_XREC_VTR_ANNOSCALE_DATA");
    lemma_lengths_differ("PUCSORGTOP"@, "ADSK_XREC_VTR_ANNOSCALE_DATA"@);
    reveal_strlit("ADSK_XREC_SUBDVERTEXTEXCOORDS");
    lemma_lengths_differ("PUCSORGTOP"@, "ADSK_XREC_SUBDVERTEXTEXCOORDS"@);
    reveal_strlit("ACAD_XREC_ROUNDTRIP");
    lemma_lengths_differ("PUCSORGTOP"@, "ACAD_XREC_ROUNDTRIP"@);
    reveal_strlit("ACAD_MTEXT_RT");
    lemma_lengths_differ("PUCSORGTOP"@, "ACAD_MTEXT_RT"@);
    reveal_strlit("ACAD_MTEXT_2008_RT");
    lemma_lengths_differ("PUCSORGTOP"@, "ACAD_MTEXT_2008_RT"@);
    reveal_strlit("ACDBHEADERROUNDTRIPXREC");
    lemma_lengths_differ("PUCSORGTOP"@, "ACDBHEADERROUNDTRIPXREC"@);
    reveal_strlit("AUXHDRRNDTRIPDATA");
    lemma_lengths_differ("PUCSORGTOP"@, "AUXHDRRNDTRIPDATA"@);
    reveal_strlit("ACDB_RECOMPOSE_DATA");
    lemma_lengths_differ("PUCSORGTOP"@, "ACDB_RECOMPOSE_DATA"@);
    reveal_strlit("ACAD_ENHANCEDBLOCKHISTORY");
    lemma_lengths_differ("PUCSORGTOP"@, "ACAD_ENHANCEDBLOCKHISTORY"@);
    reveal_strlit("ASEBLOCKHIERARCHYINDEXRECORD");
    lemma_lengths_differ("PUCSORGTOP"@, "ASEBLOCKHIERARCHYINDEXRECORD"@);
    reveal_strlit("ADSK_XREC_LAYOUTTHUMBNAIL");
    lemma_lengths_differ("PUCSORGTOP"@, "ADSK_XREC_LAYOUTTHUMBNAIL"@);
    reveal_strlit("ADSK_XREC_VTRANIMATIONINFO");
    lemma_lengths_differ("PUCSORGTOP"@, "ADSK_XREC_VTRANIMATIONINFO"@);
    reveal_strlit("ADSK_XREC_VTRTHUMBNAIL");
    lemma_lengths_differ("PUCSORGTOP"@, "ADSK_XREC_VTRTHUMBNAIL"@);
    reveal_strlit("ADSK_XREC_VTRVIEWINFO");
    lemma_lengths_differ("PUCSORGTOP"@, "ADSK_XREC_VTRVIEWINFO"@);
    reveal_strlit("ADSK_XREC_PHOTOMETRICLIGHTINFO");
    lemma_lengths_differ("PUCSORGTOP"@, "ADSK_XREC_PHOTOMETRICLIGHTINFO"@);
    reveal_strlit("LIGHTINGQUALITY");
    lemma_lengths_differ("PUCSORGTOP"@, "LIGHTINGQUALITY"@);
    reveal_strlit("ACAD_LAST_SAVED_VERSION_INFO");
    lemma_lengths_differ("PUCSORGTOP"@, "ACAD_LAST_SAVED_VERSION_INFO"@);
    reveal_strlit("ACAD_CIP_PREVIOUS_PRODUCT_INFO");
    lemma_lengths_differ("PUCSORGTOP"@, "ACAD_CIP_PREVIOUS_PRODUCT_INFO"@);
    reveal_strlit("DWGPROPS");
    lemma_lengths_differ("PUCSORGTOP"@, "DWGPROPS"@);
    reveal_strlit("FINGERPRINTGUID");
    lemma_lengths_differ("PUCSORGTOP"@, "FINGERPRINTGUID"@);
    reveal_strlit("ACADDIM");
    lemma_lengths_differ("PUCSORGTOP"@, "ACADDIM"@);
    reveal_strlit("DIMSTYLEDATA");
    lemma_lengths_differ("PUCSORGTOP"@, "DIMSTYLEDATA"@);
    reveal_strlit("DIMLTEX1");
    lemma_lengths_differ("PUCSORGTOP"@, "DIMLTEX1"@);
    reveal_strlit("DIMLTEX2");
    lemma_lengths_differ("PUCSORGTOP"@, "DIMLTEX2"@);
    reveal_strlit("DIMLTYPE");
    lemma_lengths_differ("PUCSORGTOP"@, "DIMLTYPE"@);
    reveal_strlit("TSTACKALIGN");
    lemma_lengths_differ("PUCSORGTOP"@, "TSTACKALIGN"@);
    reveal_strlit("TSTACKSIZE");
    lemma_differ_at("PUCSORGTOP"@, "TSTACKSIZE"@, 0);
    reveal_strlit("PUCSBASE");
    lemma_lengths_differ("PUCSORGTOP"@, "PUCSBASE"@);
    reveal_strlit("PUCSORGBACK");
    lemma_lengths_differ("PUCSORGTOP"@, "PUCSORGBACK"@);
    reveal_strlit("PUCSORGBOTTOM");
    lemma_lengths_differ("PUCSORGTOP"@, "PUCSORGBOTTOM"@);
    reveal_strlit("PUCSORGFRONT");
    lemma_lengths_differ("PUCSORGTOP"@, "PUCSORGFRONT"@);
    reveal_strlit("PUCSORGLEFT");
    lemma_lengths_differ("PUCSORGTOP"@, "PUCSORGLEFT"@);
    reveal_strlit("PUCSORGRIGHT");
    lemma_lengths_differ("PUCSORGTOP"@, "PUCSORGRIGHT"@);
    law_kind_ignores_case(s, "PUCSORGTOP"@);
}

proof fn lemma_key_42(s: Seq<char>)
    requires
        eq_ci(s, "PUCSORTHOREF"@),
    ensures
        known_kind_of(s) == KnownXRecordKind::UcsData,
{
    reveal_strlit("PUCSORTHOREF");
    reveal_strlit("ADSK_XREC_LAYER_ALPHA_OVR");
    lemma_lengths_differ("PUCSORTHOREF"@, "ADSK_XREC_LAYER_ALPHA_OVR"@);
    reveal_strlit("ADSK_XREC_LAYER_COLOR_OVR");
    lemma_lengths_differ("PUCSORTHOREF"@, "ADSK_XREC_LAYER_COLOR_OVR"@);
    reveal_strlit("ADSK_XREC_LAYER_LINETYPE_OVR");
    lemma_lengths_differ("PUCSORTHOREF"@, "ADSK_XREC_LAYER_LINETYPE_OVR"@);
    reveal_strlit("ADSK_XREC_LAYER_LINEWT_OVR");
    lemma_lengths_differ("PUCSORTHOREF"@, "ADSK_XREC_LAYER_LINEWT_OVR"@);
    reveal_strlit("ADSK_XREC_LAYER_RECONCILED");
    lemma_lengths_differ("PUCSORTHOREF"@, "ADSK_XREC_LAYER_RECONCILED"@);
    reveal_strlit("ACADLAYERSTATEANNOSCALE");
    lemma_lengths_differ("PUCSORTHOREF"@, "ACADLAYERSTATEANNOSCALE"@);
    reveal_strlit("ASDK_XREC_ANNOTATION_SCALE_INFO");
    lemma_lengths_differ("PUCSORTHOREF"@, "ASDK_XREC_ANNOTATION_SCALE_INFO"@);
    reveal_strlit("ASDK_XREC_ANNO_SCALE_INFO");
    lemma_lengths_differ("PUCSORTHOREF"@, "ASDK_XREC_ANNO_SCALE_INFO"@);
    reveal_strlit("ADSK_XREC_VTR_ANNOSCALE_DATA");
    lemma_lengths_differ("PUCSORTHOREF"@, "ADSK_XREC_VTR_ANNOSCALE_DATA"@);
    reveal_strlit("ADSK_XREC_SUBDVERTEXTEXCOORDS");
    lemma_lengths_differ("PUCSORTHOREF"@, "ADSK_XREC_SUBDVERTEXTEXCOORDS"@);
    reveal_strlit("ACAD_XREC_ROUNDTRIP");
    lemma_lengths_differ("PUCSORTHOREF"@, "ACAD_XREC_ROUNDTRIP"@);
    reveal_strlit("ACAD_MTEXT_RT");
    lemma_lengths_differ("PUCSORTHOREF"@, "ACAD_MTEXT_RT"@);
    reveal_strlit("ACAD_MTEXT_2008_RT");
    lemma_lengths_differ("PUCSORTHOREF"@, "ACAD_MTEXT_2008_RT"@);
    reveal_strlit("ACDBHEADERROUNDTRIPXREC");
    lemma_lengths_differ("PUCSORTHOREF"@, "ACDBHEADERROUNDTRIPXREC"@);
    reveal_strlit("AUXHDRRNDTRIPDATA");
    lemma_lengths_differ("PUCSORTHOREF"@, "AUXHDRRNDTRIPDATA"@);
    reveal_strlit("ACDB_RECOMPOSE_DATA");
    lemma_lengths_differ("PUCSORTHOREF"@, "ACDB_RECOMPOSE_DATA"@);
    reveal_strlit("ACAD_ENHANCEDBLOCKHISTORY");
    lemma_lengths_differ("PUCSORTHOREF"@, "ACAD_ENHANCEDBLOCKHISTORY"@);
    reveal_strlit("ASEBLOCKHIERARCHYINDEXRECORD");
    lemma_lengths_differ("PUCSORTHOREF"@, "ASEBLOCKHIERARCHYINDEXRECORD"@);
    reveal_strlit("ADSK_XREC_LAYOUTTHUMBNAIL");
    lemma_lengths_differ("PUCSORTHOREF"@, "ADSK_XREC_LAYOUTTHUMBNAIL"@);
    reveal_strlit("ADSK_XREC_VTRANIMATIONINFO");
    lemma_lengths_differ("PUCSORTHOREF"@, "ADSK_XREC_VTRANIMATIONINFO"@);
    reveal_strlit("ADSK_XREC_VTRTHUMBNAIL");
    lemma_lengths_differ("PUCSORTHOREF"@, "ADSK_XREC_VTRTHUMBNAIL"@);
    reveal_strlit("ADSK_XREC_VTRVIEWINFO");
    lemma_lengths_differ("PUCSORTHOREF"@, "ADSK_XREC_VTRVIEWINFO"@);
    reveal_strlit("ADSK_XREC_PHOTOMETRICLIGHTINFO");
    lemma_lengths_differ("PUCSORTHOREF"@, "ADSK_XREC_PHOTOMETRICLIGHTINFO"@);
    reveal_strlit("LIGHTINGQUALITY");
    lemma_lengths_differ("PUCSORTHOREF"@, "LIGHTINGQUALITY"@);
    reveal_strlit("ACAD_LAST_SAVED_VERSION_INFO");
    lemma_lengths_differ("PUCSORTHOREF"@, "ACAD_LAST_SAVED_VERSION_INFO"@);
    reveal_strlit("ACAD_CIP_PREVIOUS_PRODUCT_INFO");
    lemma_lengths_differ("PUCSORTHOREF"@, "ACAD_CIP_PREVIOUS_PRODUCT_INFO"@);
    reveal_strlit("DWGPROPS");
    lemma_lengths_differ("PUCSORTHOREF"@, "DWGPROPS"@);
    reveal_strlit("FINGERPRINTGUID");
    lemma_lengths_differ("PUCSORTHOREF"@, "FINGERPRINTGUID"@);
    reveal_strlit("ACADDIM");
    lemma_lengths_differ("PUCSORTHOREF"@, "ACADDIM"@);
    reveal_strlit("DIMSTYLEDATA");
    lemma_differ_at("PUCSORTHOREF"@, "DIMSTYLEDATA"@, 0);
    reveal_strlit("DIMLTEX1");
    lemma_lengths_differ("PUCSORTHOREF"@, "DIMLTEX1"@);
    reveal_strlit("DIMLTEX2");
    lemma_lengths_differ("PUCSORTHOREF"@, "DIMLTEX2"@);
    reveal_strlit("DIMLTYPE");
    lemma_lengths_differ("PUCSORTHOREF"@, "DIMLTYPE"@);
    reveal_strlit("TSTACKALIGN");
    lemma_lengths_differ("PUCSORTHOREF"@, "TSTACKALIGN"@);
    reveal_strlit("TSTACKSIZE");
    lemma_lengths_differ("PUCSORTHOREF"@, "TSTACKSIZE"@);
    reveal_strlit("PUCSBASE");
    lemma_lengths_differ("PUCSORTHOREF"@, "PUCSBASE"@);
    reveal_strlit("PUCSORGBACK");
    lemma_lengths_differ("PUCSORTHOREF"@, "PUCSORGBACK"@);
    reveal_strlit("PUCSORGBOTTOM");
    lemma_lengths_differ("PUCSORTHOREF"@, "PUCSORGBOTTOM"@);
    reveal_strlit("PUCSORGFRONT");
    lemma_differ_at("PUCSORTHOREF"@, "PUCSORGFRONT"@, 6);
    reveal_strlit("PUCSORGLEFT");
    lemma_lengths_differ("PUCSORTHOREF"@, "PUCSORGLEFT"@);
    reveal_strlit("PUCSORGRIGHT");
    lemma_differ_at("PUCSORTHOREF"@, "PUCSORGRIGHT"@, 6);
    reveal_strlit("PUCSORGTOP");
    lemma_lengths_differ("PUCSORTHOREF"@, "PUCSORGTOP"@);
    law_kind_ignores_case(s, "PUCSORTHOREF"@);
}

proof fn lemma_key_43(s: Seq<char>)
    requires
        eq_ci(s, "PUCSORTHOVIEW"@),
    ensures
        known_kind_of(s) == KnownXRecordKind::UcsData,
{
    reveal_strlit("PUCSORTHOVIEW");
    reveal_strlit("ADSK_XREC_LAYER_ALPHA_OVR");
    lemma_lengths_differ("PUCSORTHOVIEW"@, "ADSK_XREC_LAYER_ALPHA_OVR"@);
    reveal_strlit("ADSK_XREC_LAYER_COLOR_OVR");
    lemma_lengths_differ("PUCSORTHOVIEW"@, "ADSK_XREC_LAYER_COLOR_OVR"@);
    reveal_strlit("ADSK_XREC_LAYER_LINETYPE_OVR");
    lemma_lengths_differ("PUCSORTHOVIEW"@, "ADSK_XREC_LAYER_LINETYPE_OVR"@);
    reveal_strlit("ADSK_XREC_LAYER_LINEWT_OVR");
    lemma_lengths_differ("PUCSORTHOVIEW"@, "ADSK_XREC_LAYER_LINEWT_OVR"@);
    reveal_strlit("ADSK_XREC_LAYER_RECONCILED");
    lemma_lengths_differ("PUCSORTHOVIEW"@, "ADSK_XREC_LAYER_RECONCILED"@);
    reveal_strlit("ACADLAYERSTATEANNOSCALE");
    lemma_lengths_differ("PUCSORTHOVIEW"@, "ACADLAYERSTATEANNOSCALE"@);
    reveal_strlit("ASDK_XREC_ANNOTATION_SCALE_INFO");
    lemma_lengths_differ("PUCSORTHOVIEW"@, "ASDK_XREC_ANNOTATION_SCALE_INFO"@);
    reveal_strlit("ASDK_XREC_ANNO_SCALE_INFO");
    lemma_lengths_differ("PUCSORTHOVIEW"@, "ASDK_XREC_ANNO_SCALE_INFO"@);
    reveal_strlit("ADSK_XREC_VTR_ANNOSCALE_DATA");
    lemma_lengths_differ("PUCSORTHOVIEW"@, "ADSK_XREC_VTR_ANNOSCALE_DATA"@);
    reveal_strlit("ADSK_XREC_SUBDVERTEXTEXCOORDS");
    lemma_lengths_differ("PUCSORTHOVIEW"@, "ADSK_XREC_SUBDVERTEXTEXCOORDS"@);
    reveal_strlit("ACAD_XREC_ROUNDTRIP");
    lemma_lengths_differ("PUCSORTHOVIEW"@, "ACAD_XREC_ROUNDTRIP"@);
    reveal_strlit("ACAD_MTEXT_RT");
    lemma_differ_at("PUCSORTHOVIEW"@, "ACAD_MTEXT_RT"@, 0);
    reveal_strlit("ACAD_MTEXT_2008_RT");
    lemma_lengths_differ("PUCSORTHOVIEW"@, "ACAD_MTEXT_2008_RT"@);
    reveal_strlit("ACDBHEADERROUNDTRIPXREC");
    lemma_lengths_differ("PUCSORTHOVIEW"@, "ACDBHEADERROUNDTRIPXREC"@);
    reveal_strlit("AUXHDRRNDTRIPDATA");
    lemma_lengths_differ("PUCSORTHOVIEW"@, "AUXHDRRNDTRIPDATA"@);
    reveal_strlit("ACDB_RECOMPOSE_DATA");
    lemma_lengths_differ("PUCSORTHOVIEW"@, "ACDB_RECOMPOSE_DATA"@);
    reveal_strlit("ACAD_ENHANCEDBLOCKHISTORY");
    lemma_lengths_differ("PUCSORTHOVIEW"@, "ACAD_ENHANCEDBLOCKHISTORY"@);
    reveal_strlit("ASEBLOCKHIERARCHYINDEXRECORD");
    lemma_lengths_differ("PUCSORTHOVIEW"@, "ASEBLOCKHIERARCHYINDEXRECORD"@);
    reveal_strlit("ADSK_XREC_LAYOUTTHUMBNAIL");
    lemma_lengths_differ("PUCSORTHOVIEW"@, "ADSK_XREC_LAYOUTTHUMBNAIL"@);
    reveal_strlit("ADSK_XREC_VTRANIMATIONINFO");
    lemma_lengths_differ("PUCSORTHOVIEW"@, "ADSK_XREC_VTRANIMATIONINFO"@);
    reveal_strlit("ADSK_XREC_VTRTHUMBNAIL");
    lemma_lengths_differ("PUCSORTHOVIEW"@, "ADSK_XREC_VTRTHUMBNAIL"@);
    reveal_strlit("ADSK_XREC_VTRVIEWINFO");
    lemma_lengths_differ("PUCSORTHOVIEW"@, "ADSK_XREC_VTRVIEWINFO"@);
    reveal_strlit("ADSK_XREC_PHOTOMETRICLIGHTINFO");
    lemma_lengths_differ("PUCSORTHOVIEW"@, "ADSK_XREC_PHOTOMETRICLIGHTINFO"@);
    reveal_strlit("LIGHTINGQUALITY");
    lemma_lengths_differ("PUCSORTHOVIEW"@, "LIGHTINGQUALITY"@);
    reveal_strlit("ACAD_LAST_SAVED_VERSION_INFO");
    lemma_lengths_differ("PUCSORTHOVIEW"@, "ACAD_LAST_SAVED_VERSION_INFO"@);
    reveal_strlit("ACAD_CIP_PREVIOUS_PRODUCT_INFO");
    lemma_lengths_differ("PUCSORTHOVIEW"@, "ACAD_CIP_PREVIOUS_PRODUCT_INFO"@);
    reveal_strlit("DWGPROPS");
    lemma_lengths_differ("PUCSORTHOVIEW"@, "DWGPROPS"@);
    reveal_strlit("FINGERPRINTGUID");
    lemma_lengths_differ("PUCSORTHOVIEW"@, "FINGERPRINTGUID"@);
    reveal_strlit("ACADDIM");
    lemma_lengths_differ("PUCSORTHOVIEW"@, "ACADDIM"@);
    reveal_strlit("DIMSTYLEDATA");
    lemma_lengths_differ("PUCSORTHOVIEW"@, "DIMSTYLEDATA"@);
    reveal_strlit("DIMLTEX1");
    lemma_lengths_differ("PUCSORTHOVIEW"@, "DIMLTEX1"@);
    reveal_strlit("DIMLTEX2");
    lemma_lengths_differ("PUCSORTHOVIEW"@, "DIMLTEX2"@);
    reveal_strlit("DIMLTYPE");
    lemma_lengths_differ("PUCSORTHOVIEW"@, "DIMLTYPE"@);
    reveal_strlit("TSTACKALIGN");
    lemma_lengths_differ("PUCSORTHOVIEW"@, "TSTACKALIGN"@);
    reveal_strlit("TSTACKSIZE");
    lemma_lengths_differ("PUCSORTHOVIEW"@, "TSTACKSIZE"@);
    reveal_strlit("PUCSBASE");
    lemma_lengths_differ("PUCSORTHOVIEW"@, "PUCSBASE"@);
    reveal_strlit("PUCSORGBACK");
    lemma_lengths_differ("PUCSORTHOVIEW"@, "PUCSORGBACK"@);
    reveal_strlit("PUCSORGBOTTOM");
    lemma_differ_at("PUCSORTHOVIEW"@, "PUCSORGBOTTOM"@, 6);
    reveal_strlit("PUCSORGFRONT");
    lemma_lengths_differ("PUCSORTHOVIEW"@, "PUCSORGFRONT"@);
    reveal_strlit("PUCSORGLEFT");
    lemma_lengths_differ("PUCSORTHOVIEW"@, "PUCSORGLEFT"@);
    reveal_strlit("PUCSORGRIGHT");
    lemma_lengths_differ("PUCSORTHOVIEW"@, "PUCSORGRIGHT"@);
    reveal_strlit("PUCSORGTOP");
    lemma_lengths_differ("PUCSORTHOVIEW"@, "PUCSORGTOP"@);
    reveal_strlit("PUCSORTHOREF");
    lemma_lengths_differ("PUCSORTHOVIEW"@, "PUCSORTHOREF"@);
    law_kind_ignores_case(s, "PUCSORTHOVIEW"@);
}

proof fn lemma_key_44(s: Seq<char>)
    requires
        eq_ci(s, "UCSBASE"@),
    ensures
        known_kind_of(s) == KnownXRecordKind::UcsData,
{
    reveal_strlit("UCSBASE");
    reveal_strlit("ADSK_XREC_LAYER_ALPHA_OVR");
    lemma_lengths_differ("UCSBASE"@, "ADSK_XREC_LAYER_ALPHA_OVR"@);
    reveal_strlit("ADSK_XREC_LAYER_COLOR_OVR");
    lemma_lengths_differ("UCSBASE"@, "ADSK_XREC_LAYER_COLOR_OVR"@);
    reveal_strlit("ADSK_XREC_LAYER_LINETYPE_OVR");
    lemma_lengths_differ("UCSBASE"@, "ADSK_XREC_LAYER_LINETYPE_OVR"@);
    reveal_strlit("ADSK_XREC_LAYER_LINEWT_OVR");
    lemma_lengths_differ("UCSBASE"@, "ADSK_XREC_LAYER_LINEWT_OVR"@);
    reveal_strlit("ADSK_XREC_LAYER_RECONCILED");
    lemma_lengths_differ("UCSBASE"@, "ADSK_XREC_LAYER_RECONCILED"@);
    reveal_strlit("ACADLAYERSTATEANNOSCALE");
    lemma_lengths_differ("UCSBASE"@, "ACADLAYERSTATEANNOSCALE"@);
    reveal_strlit("ASDK_XREC_ANNOTATION_SCALE_INFO");
    lemma_lengths_differ("UCSBASE"@, "ASDK_XREC_ANNOTATION_SCALE_INFO"@);
    reveal_strlit("ASDK_XREC_ANNO_SCALE_INFO");
    lemma_lengths_differ("UCSBASE"@, "ASDK_XREC_ANNO_SCALE_INFO"@);
    reveal_strlit("ADSK_XREC_VTR_ANNOSCALE_DATA");
    lemma_lengths_differ("UCSBASE"@, "ADSK_XREC_VTR_ANNOSCALE_DATA"@);
    reveal_strlit("ADSK_XREC_SUBDVERTEXTEXCOORDS");
    lemma_lengths_differ("UCSBASE"@, "ADSK_XREC_SUBDVERTEXTEXCOORDS"@);
    reveal_strlit("ACAD_XREC_ROUNDTRIP");
    lemma_lengths_differ("UCSBASE"@, "ACAD_XREC_ROUNDTRIP"@);
    reveal_strlit("ACAD_MTEXT_RT");
    lemma_lengths_differ("UCSBASE"@, "ACAD_MTEXT_RT"@);
    reveal_strlit("ACAD_MTEXT_2008_RT");
    lemma_lengths_differ("UCSBASE"@, "ACAD_MTEXT_2008_RT"@);
    reveal_strlit("ACDBHEADERROUNDTRIPXREC");
    lemma_lengths_differ("UCSBASE"@, "ACDBHEADERROUNDTRIPXREC"@);
    reveal_strlit("AUXHDRRNDTRIPDATA");
    lemma_lengths_differ("UCSBASE"@, "AUXHDRRNDTRIPDATA"@);
    reveal_strlit("ACDB_RECOMPOSE_DATA");
    lemma_lengths_differ("UCSBASE"@, "ACDB_RECOMPOSE_DATA"@);
    reveal_strlit("ACAD_ENHANCEDBLOCKHISTORY");
    lemma_lengths_differ("UCSBASE"@, "ACAD_ENHANCEDBLOCKHISTORY"@);
    reveal_strlit("ASEBLOCKHIERARCHYINDEXRECORD");
    lemma_lengths_differ("UCSBASE"@, "ASEBLOCKHIERARCHYINDEXRECORD"@);
    reveal_strlit("ADSK_XREC_LAYOUTTHUMBNAIL");
    lemma_lengths_differ("UCSBASE"@, "ADSK_XREC_LAYOUTTHUMBNAIL"@);
    reveal_strlit("ADSK_XREC_VTRANIMATIONINFO");
    lemma_lengths_differ("UCSBASE"@, "ADSK_XREC_VTRANIMATIONINFO"@);
    reveal_strlit("ADSK_XREC_VTRTHUMBNAIL");
    lemma_lengths_differ("UCSBASE"@, "ADSK_XREC_VTRTHUMBNAIL"@);
    reveal_strlit("ADSK_XREC_VTRVIEWINFO");
    lemma_lengths_differ("UCSBASE"@, "ADSK_XREC_VTRVIEWINFO"@);
    reveal_strlit("ADSK_XREC_PHOTOMETRICLIGHTINFO");
    lemma_lengths_differ("UCSBASE"@, "ADSK_XREC_PHOTOMETRICLIGHTINFO"@);
    reveal_strlit("LIGHTINGQUALITY");
    lemma_lengths_differ("UCSBASE"@, "LIGHTINGQUALITY"@);
    reveal_strlit("ACAD_LAST_SAVED_VERSION_INFO");
    lemma_lengths_differ("UCSBASE"@, "ACAD_LAST_SAVED_VERSION_INFO"@);
    reveal_strlit("ACAD_CIP_PREVIOUS_PRODUCT_INFO");
    lemma_lengths_differ("UCSBASE"@, "ACAD_CIP_PREVIOUS_PRODUCT_INFO"@);
    reveal_strlit("DWGPROPS");
    lemma_lengths_differ("UCSBASE"@, "DWGPROPS"@);
    reveal_strlit("FINGERPRINTGUID");
    lemma_lengths_differ("UCSBASE"@, "FINGERPRINTGUID"@);
    reveal_strlit("ACADDIM");
    lemma_differ_at("UCSBASE"@, "ACADDIM"@, 0);
    reveal_strlit("DIMSTYLEDATA");
    lemma_lengths_differ("UCSBASE"@, "DIMSTYLEDATA"@);
    reveal_strlit("DIMLTEX1");
    lemma_lengths_differ("UCSBASE"@, "DIMLTEX1"@);
    reveal_strlit("DIMLTEX2");
    lemma_lengths_differ("UCSBASE"@, "DIMLTEX2"@);
    reveal_strlit("DIMLTYPE");
    lemma_lengths_differ("UCSBASE"@, "DIMLTYPE"@);
    reveal_strlit("TSTACKALIGN");
    lemma_lengths_differ("UCSBASE"@, "TSTACKALIGN"@);
    reveal_strlit("TSTACKSIZE");
    lemma_lengths_differ("UCSBASE"@, "TSTACKSIZE"@);
    reveal_strlit("PUCSBASE");
    lemma_lengths_differ("UCSBASE"@, "PUCSBASE"@);
    reveal_strlit("PUCSORGBACK");
    lemma_lengths_differ("UCSBASE"@, "PUCSORGBACK"@);
    reveal_strlit("PUCSORGBOTTOM");
    lemma_lengths_differ("UCSBASE"@, "PUCSORGBOTTOM"@);
    reveal_strlit("PUCSORGFRONT");
    lemma_lengths_differ("UCSBASE"@, "PUCSORGFRONT"@);
    reveal_strlit("PUCSORGLEFT");
    lemma_lengths_differ("UCSBASE"@, "PUCSORGLEFT"@);
    reveal_strlit("PUCSORGRIGHT");
    lemma_lengths_differ("UCSBASE"@, "PUCSORGRIGHT"@);
    reveal_strlit("PUCSORGTOP");
    lemma_lengths_differ("UCSBASE"@, "PUCSORGTOP"@);
    reveal_strlit("PUCSORTHOREF");
    lemma_lengths_differ("UCSBASE"@, "PUCSORTHOREF"@);
    reveal_strlit("PUCSORTHOVIEW");
    lemma_lengths_differ("UCSBASE"@, "PUCSORTHOVIEW"@);
    law_kind_ignores_case(s, "UCSBASE"@);
}

proof fn lemma_key_45(s: Seq<char>)
    requires
        eq_ci(s, "UCSORGBACK"@),
    ensures
        known_kind_of(s) == KnownXRecordKind::UcsData,
{
    reveal_strlit("UCSORGBACK");
    reveal_strlit("ADSK_XREC_LAYER_ALPHA_OVR");
    lemma_lengths_differ("UCSORGBACK"@, "ADSK_XREC_LAYER_ALPHA_OVR"@);
    reveal_strlit("ADSK_XREC_LAYER_COLOR_OVR");
    lemma_lengths_differ("UCSORGBACK"@, "ADSK_XREC_LAYER_COLOR_OVR"@);
    reveal_strlit("ADSK_XREC_LAYER_LINETYPE_OVR");
    lemma_lengths_differ("UCSORGBACK"@, "ADSK_XREC_LAYER_LINETYPE_OVR"@);
    reveal_strlit("ADSK_XREC_LAYER_LINEWT_OVR");
    lemma_lengths_differ("UCSORGBACK"@, "ADSK_XREC_LAYER_LINEWT_OVR"@);
    reveal_strlit("ADSK_XREC_LAYER_RECONCILED");
    lemma_lengths_differ("UCSORGBACK"@, "ADSK_XREC_LAYER_RECONCILED"@);
    reveal_strlit("ACADLAYERSTATEANNOSCALE");
    lemma_lengths_differ("UCSORGBACK"@, "ACADLAYERSTATEANNOSCALE"@);
    reveal_strlit("ASDK_XREC_ANNOTATION_SCALE_INFO");
    lemma_lengths_differ("UCSORGBACK"@, "ASDK_XREC_ANNOTATION_SCALE_INFO"@);
    reveal_strlit("ASDK_XREC_ANNO_SCALE_INFO");
    lemma_lengths_differ("UCSORGBACK"@, "ASDK_XREC_ANNO_SCALE_INFO"@);
    reveal_strlit("ADSK_XREC_VTR_ANNOSCALE_DATA");
    lemma_lengths_differ("UCSORGBACK"@, "ADSK_XREC_VTR_ANNOSCALE_DATA"@);
    reveal_strlit("ADSK_XREC_SUBDVERTEXTEXCOORDS");
    lemma_lengths_differ("UCSORGBACK"@, "ADSK_XREC_SUBDVERTEXTEXCOORDS"@);
    reveal_strlit("ACAD_XREC_ROUNDTRIP");
    lemma_lengths_differ("UCSORGBACK"@, "ACAD_XREC_ROUNDTRIP"@);
    reveal_strlit("ACAD_MTEXT_RT");
    lemma_lengths_differ("UCSORGBACK"@, "ACAD_MTEXT_RT"@);
    reveal_strlit("ACAD_MTEXT_2008_RT");
    lemma_lengths_differ("UCSORGBACK"@, "ACAD_MTEXT_2008_RT"@);
    reveal_strlit("ACDBHEADERROUNDTRIPXREC");
    lemma_lengths_differ("UCSORGBACK"@, "ACDBHEADERROUNDTRIPXREC"@);
    reveal_strlit("AUXHDRRNDTRIPDATA");
    lemma_lengths_differ("UCSORGBACK"@, "AUXHDRRNDTRIPDATA"@);
    reveal_strlit("ACDB_RECOMPOSE_DATA");
    lemma_lengths_differ("UCSORGBACK"@, "ACDB_RECOMPOSE_DATA"@);
    reveal_strlit("ACAD_ENHANCEDBLOCKHISTORY");
    lemma_lengths_differ("UCSORGBACK"@, "ACAD_ENHANCEDBLOCKHISTORY"@);
    reveal_strlit("ASEBLOCKHIERARCHYINDEXRECORD");
    lemma_lengths_differ("UCSORGBACK"@, "ASEBLOCKHIERARCHYINDEXRECORD"@);
    reveal_strlit("ADSK_XREC_LAYOUTTHUMBNAIL");
    lemma_lengths_differ("UCSORGBACK"@, "ADSK_XREC_LAYOUTTHUMBNAIL"@);
    reveal_strlit("ADSK_XREC_VTRANIMATIONINFO");
    lemma_lengths_differ("UCSORGBACK"@, "ADSK_XREC_VTRANIMATIONINFO"@);
    reveal_strlit("ADSK_XREC_VTRTHUMBNAIL");
    lemma_lengths_differ("UCSORGBACK"@, "ADSK_XREC_VTRTHUMBNAIL"@);
    reveal_strlit("ADSK_XREC_VTRVIEWINFO");
    lemma_lengths_differ("UCSORGBACK"@, "ADSK_XREC_VTRVIEWINFO"@);
    reveal_strlit("ADSK_XREC_PHOTOMETRICLIGHTINFO");
    lemma_lengths_differ("UCSORGBACK"@, "ADSK_XREC_PHOTOMETRICLIGHTINFO"@);
    reveal_strlit("LIGHTINGQUALITY");
    lemma_lengths_differ("UCSORGBACK"@, "LIGHTINGQUALITY"@);
    reveal_strlit("ACAD_LAST_SAVED_VERSION_INFO");
    lemma_lengths_differ("UCSORGBACK"@, "ACAD_LAST_SAVED_VERSION_INFO"@);
    reveal_strlit("ACAD_CIP_PREVIOUS_PRODUCT_INFO");
    lemma_lengths_differ("UCSORGBACK"@, "ACAD_CIP_PREVIOUS_PRODUCT_INFO"@);
    reveal_strlit("DWGPROPS");
    lemma_lengths_differ("UCSORGBACK"@, "DWGPROPS"@);
    reveal_strlit("FINGERPRINTGUID");
    lemma_lengths_differ("UCSORGBACK"@, "FINGERPRINTGUID"@);
    reveal_strlit("ACADDIM");
    lemma_lengths_differ("UCSORGBACK"@, "ACADDIM"@);
    reveal_strlit("DIMSTYLEDATA");
    lemma_lengths_differ("UCSORGBACK"@, "DIMSTYLEDATA"@);
    reveal_strlit("DIMLTEX1");
    lemma_lengths_differ("UCSORGBACK"@, "DIMLTEX1"@);
    reveal_strlit("DIMLTEX2");
    lemma_lengths_differ("UCSORGBACK"@, "DIMLTEX2"@);
    reveal_strlit("DIMLTYPE");
    lemma_lengths_differ("UCSORGBACK"@, "DIMLTYPE"@);
    reveal_strlit("TSTACKALIGN");
    lemma_lengths_differ("UCSORGBACK"@, "TSTACKALIGN"@);
    reveal_strlit("TSTACKSIZE");
    lemma_differ_at("UCSORGBACK"@, "TSTACKSIZE"@, 0);
    reveal_strlit("PUCSBASE");
    lemma_lengths_differ("UCSORGBACK"@, "PUCSBASE"@);
    reveal_strlit("PUCSORGBACK");
    lemma_lengths_differ("UCSORGBACK"@, "PUCSORGBACK"@);
    reveal_strlit("PUCSORGBOTTOM");
    lemma_lengths_differ("UCSORGBACK"@, "PUCSORGBOTTOM"@);
    reveal_strlit("PUCSORGFRONT");
    lemma_lengths_differ("UCSORGBACK"@, "PUCSORGFRONT"@);
    reveal_strlit("PUCSORGLEFT");
    lemma_lengths_differ("UCSORGBACK"@, "PUCSORGLEFT"@);
    reveal_strlit("PUCSORGRIGHT");
    lemma_lengths_differ("UCSORGBACK"@, "PUCSORGRIGHT"@);
    reveal_strlit("PUCSORGTOP");
    lemma_differ_at("UCSORGBACK"@, "PUCSORGTOP"@, 0);
    reveal_strlit("PUCSORTHOREF");
    lemma_lengths_differ("UCSORGBACK"@, "PUCSORTHOREF"@);
    reveal_strlit("PUCSORTHOVIEW");
    lemma_lengths_differ("UCSORGBACK"@, "PUCSORTHOVIEW"@);
    reveal_strlit("UCSBASE");
    lemma_lengths_differ("UCSORGBACK"@, "UCSBASE"@);
    law_kind_ignores_case(s, "UCSORGBACK"@);
}

proof fn lemma_key_46(s: Seq<char>)
    requires
        eq_ci(s, "UCSORGBOTTOM"@),
    ensures
        known_kind_of(s) == KnownXRecordKind::UcsData,
{
    reveal_strlit("UCSORGBOTTOM");
    reveal_strlit("ADSK_XREC_LAYER_ALPHA_OVR");
    lemma_lengths_differ("UCSORGBOTTOM"@, "ADSK_XREC_LAYER_ALPHA_OVR"@);
    reveal_strlit("ADSK_XREC_LAYER_COLOR_OVR");
    lemma_lengths_differ("UCSORGBOTTOM"@, "ADSK_XREC_LAYER_COLOR_OVR"@);
    reveal_strlit("ADSK_XREC_LAYER_LINETYPE_OVR");
    lemma_lengths_differ("UCSORGBOTTOM"@, "ADSK_XREC_LAYER_LINETYPE_OVR"@);
    reveal_strlit("ADSK_XREC_LAYER_LINEWT_OVR");
    lemma_lengths_differ("UCSORGBOTTOM"@, "ADSK_XREC_LAYER_LINEWT_OVR"@);
    reveal_strlit("ADSK_XREC_LAYER_RECONCILED");
    lemma_lengths_differ("UCSORGBOTTOM"@, "ADSK_XREC_LAYER_RECONCILED"@);
    reveal_strlit("ACADLAYERSTATEANNOSCALE");
    lemma_lengths_differ("UCSORGBOTTOM"@, "ACADLAYERSTATEANNOSCALE"@);
    reveal_strlit("ASDK_XREC_ANNOTATION_SCALE_INFO");
    lemma_lengths_differ("UCSORGBOTTOM"@, "ASDK_XREC_ANNOTATION_SCALE_INFO"@);
    reveal_strlit("ASDK_XREC_ANNO_SCALE_INFO");
    lemma_lengths_differ("UCSORGBOTTOM"@, "ASDK_XREC_ANNO_SCALE_INFO"@);
    reveal_strlit("ADSK_XREC_VTR_ANNOSCALE_DATA");
    lemma_lengths_differ("UCSORGBOTTOM"@, "ADSK_XREC_VTR_ANNOSCALE_DATA"@);
    reveal_strlit("ADSK_XREC_SUBDVERTEXTEXCOORDS");
    lemma_lengths_differ("UCSORGBOTTOM"@, "ADSK_XREC_SUBDVERTEXTEXCOORDS"@);
    reveal_strlit("ACAD_XREC_ROUNDTRIP");
    lemma_lengths_differ("UCSORGBOTTOM"@, "ACAD_XREC_ROUNDTRIP"@);
    reveal_strlit("ACAD_MTEXT_RT");
    lemma_lengths_differ("UCSORGBOTTOM"@, "ACAD_MTEXT_RT"@);
    reveal_strlit("ACAD_MTEXT_2008_RT");
    lemma_lengths_differ("UCSORGBOTTOM"@, "ACAD_MTEXT_2008_RT"@);
    reveal_strlit("ACDBHEADERROUNDTRIPXREC");
    lemma_lengths_differ("UCSORGBOTTOM"@, "ACDBHEADERROUNDTRIPXREC"@);
    reveal_strlit("AUXHDRRNDTRIPDATA");
    lemma_lengths_differ("UCSORGBOTTOM"@, "AUXHDRRNDTRIPDATA"@);
    reveal_strlit("ACDB_RECOMPOSE_DATA");
    lemma_lengths_differ("UCSORGBOTTOM"@, "ACDB_RECOMPOSE_DATA"@);
    reveal_strlit("ACAD_ENHANCEDBLOCKHISTORY");
    lemma_lengths_differ("UCSORGBOTTOM"@, "ACAD_ENHANCEDBLOCKHISTORY"@);
    reveal_strlit("ASEBLOCKHIERARCHYINDEXRECORD");
    lemma_lengths_differ("UCSORGBOTTOM"@, "ASEBLOCKHIERARCHYINDEXRECORD"@);
    reveal_strlit("ADSK_XREC_LAYOUTTHUMBNAIL");
    lemma_lengths_differ("UCSORGBOTTOM"@, "ADSK_XREC_LAYOUTTHUMBNAIL"@);
    reveal_strlit("ADSK_XREC_VTRANIMATIONINFO");
    lemma_lengths_differ("UCSORGBOTTOM"@, "ADSK_XREC_VTRANIMATIONINFO"@);
    reveal_strlit("ADSK_XREC_VTRTHUMBNAIL");
    lemma_lengths_differ("UCSORGBOTTOM"@, "ADSK_XREC_VTRTHUMBNAIL"@);
    reveal_strlit("ADSK_XREC_VTRVIEWINFO");
    lemma_lengths_differ("UCSORGBOTTOM"@, "ADSK_XREC_VTRVIEWINFO"@);
    reveal_strlit("ADSK_XREC_PHOTOMETRICLIGHTINFO");
    lemma_lengths_differ("UCSORGBOTTOM"@, "ADSK_XREC_PHOTOMETRICLIGHTINFO"@);
    reveal_strlit("LIGHTINGQUALITY");
    lemma_lengths_differ("UCSORGBOTTOM"@, "LIGHTINGQUALITY"@);
    reveal_strlit("ACAD_LAST_SAVED_VERSION_INFO");
    lemma_lengths_differ("UCSORGBOTTOM"@, "ACAD_LAST_SAVED_VERSION_INFO"@);
    reveal_strlit("ACAD_CIP_PREVIOUS_PRODUCT_INFO");
    lemma_lengths_differ("UCSORGBOTTOM"@, "ACAD_CIP_PREVIOUS_PRODUCT_INFO"@);
    reveal_strlit("DWGPROPS");
    lemma_lengths_differ("UCSORGBOTTOM"@, "DWGPROPS"@);
    reveal_strlit("FINGERPRINTGUID");
    lemma_lengths_differ("UCSORGBOTTOM"@, "FINGERPRINTGUID"@);
    reveal_strlit("ACADDIM");
    lemma_lengths_differ("UCSORGBOTTOM"@, "ACADDIM"@);
    reveal_strlit("DIMSTYLEDATA");
    lemma_differ_at("UCSORGBOTTOM"@, "DIMSTYLEDATA"@, 0);
    reveal_strlit("DIMLTEX1");
    lemma_lengths_differ("UCSORGBOTTOM"@, "DIMLTEX1"@);
    reveal_strlit("DIMLTEX2");
    lemma_lengths_differ("UCSORGBOTTOM"@, "DIMLTEX2"@);
    reveal_strlit("DIMLTYPE");
    lemma_lengths_differ("UCSORGBOTTOM"@, "DIMLTYPE"@);
    reveal_strlit("TSTACKALIGN");
    lemma_lengths_differ("UCSORGBOTTOM"@, "TSTACKALIGN"@);
    reveal_strlit("TSTACKSIZE");
    lemma_lengths_differ("UCSORGBOTTOM"@, "TSTACKSIZE"@);
    reveal_strlit("PUCSBASE");
    lemma_lengths_differ("UCSORGBOTTOM"@, "PUCSBASE"@);
    reveal_strlit("PUCSORGBACK");
    lemma_lengths_differ("UCSORGBOTTOM"@, "PUCSORGBACK"@);
    reveal_strlit("PUCSORGBOTTOM");
    lemma_lengths_differ("UCSORGBOTTOM"@, "PUCSORGBOTTOM"@);
    reveal_strlit("PUCSORGFRONT");
    lemma_differ_at("UCSORGBOTTOM"@, "PUCSORGFRONT"@, 0);
    reveal_strlit("PUCSORGLEFT");
    lemma_lengths_differ("UCSORGBOTTOM"@, "PUCSORGLEFT"@);
    reveal_strlit("PUCSORGRIGHT");
    lemma_differ_at("UCSORGBOTTOM"@, "PUCSORGRIGHT"@, 0);
    reveal_strlit("PUCSORGTOP");
    lemma_lengths_differ("UCSORGBOTTOM"@, "PUCSORGTOP"@);
    reveal_strlit("PUCSORTHOREF");
    lemma_differ_at("UCSORGBOTTOM"@, "PUCSORTHOREF"@, 0);
    reveal_strlit("PUCSORTHOVIEW");
    lemma_lengths_differ("UCSORGBOTTOM"@, "PUCSORTHOVIEW"@);
    reveal_strlit("UCSBASE");
    lemma_lengths_differ("UCSORGBOTTOM"@, "UCSBASE"@);
    reveal_strlit("UCSORGBACK");
    lemma_lengths_differ("UCSORGBOTTOM"@, "UCSORGBACK"@);
    law_kind_ignores_case(s, "UCSORGBOTTOM"@);
}

proof fn lemma_key_47(s: Seq<char>)
    requires
        eq_ci(s, "UCSORGFRONT"@),
    ensures
        known_kind_of(s) == KnownXRecordKind::UcsData,
{
    reveal_strlit("UCSORGFRONT");
    reveal_strlit("ADSK_XREC_LAYER_ALPHA_OVR");
    lemma_lengths_differ("UCSORGFRONT"@, "ADSK_XREC_LAYER_ALPHA_OVR"@);
    reveal_strlit("ADSK_XREC_LAYER_COLOR_OVR");
    lemma_lengths_differ("UCSORGFRONT"@, "ADSK_XREC_LAYER_COLOR_OVR"@);
    reveal_strlit("ADSK_XREC_LAYER_LINETYPE_OVR");
    lemma_lengths_differ("UCSORGFRONT"@, "ADSK_XREC_LAYER_LINETYPE_OVR"@);
    reveal_strlit("ADSK_XREC_LAYER_LINEWT_OVR");
    lemma_lengths_differ("UCSORGFRONT"@, "ADSK_XREC_LAYER_LINEWT_OVR"@);
    reveal_strlit("ADSK_XREC_LAYER_RECONCILED");
    lemma_lengths_differ("UCSORGFRONT"@, "ADSK_XREC_LAYER_RECONCILED"@);
    reveal_strlit("ACADLAYERSTATEANNOSCALE");
    lemma_lengths_differ("UCSORGFRONT"@, "ACADLAYERSTATEANNOSCALE"@);
    reveal_strlit("ASDK_XREC_ANNOTATION_SCALE_INFO");
    lemma_lengths_differ("UCSORGFRONT"@, "ASDK_XREC_ANNOTATION_SCALE_INFO"@);
    reveal_strlit("ASDK_XREC_ANNO_SCALE_INFO");
    lemma_lengths_differ("UCSORGFRONT"@, "ASDK_XREC_ANNO_SCALE_INFO"@);
    reveal_strlit("ADSK_XREC_VTR_ANNOSCALE_DATA");
    lemma_lengths_differ("UCSORGFRONT"@, "ADSK_XREC_VTR_ANNOSCALE_DATA"@);
    reveal_strlit("ADSK_XREC_SUBDVERTEXTEXCOORDS");
    lemma_lengths_differ("UCSORGFRONT"@, "ADSK_XREC_SUBDVERTEXTEXCOORDS"@);
    reveal_strlit("ACAD_XREC_ROUNDTRIP");
    lemma_lengths_differ("UCSORGFRONT"@, "ACAD_XREC_ROUNDTRIP"@);
    reveal_strlit("ACAD_MTEXT_RT");
    lemma_lengths_differ("UCSORGFRONT"@, "ACAD_MTEXT_RT"@);
    reveal_strlit("ACAD_MTEXT_2008_RT");
    lemma_lengths_differ("UCSORGFRONT"@, "ACAD_MTEXT_2008_RT"@);
    reveal_strlit("ACDBHEADERROUNDTRIPXREC");
    lemma_lengths_differ("UCSORGFRONT"@, "ACDBHEADERROUNDTRIPXREC"@);
    reveal_strlit("AUXHDRRNDTRIPDATA");
    lemma_lengths_differ("UCSORGFRONT"@, "AUXHDRRNDTRIPDATA"@);
    reveal_strlit("ACDB_RECOMPOSE_DATA");
    lemma_lengths_differ("UCSORGFRONT"@, "ACDB_RECOMPOSE_DATA"@);
    reveal_strlit("ACAD_ENHANCEDBLOCKHISTORY");
    lemma_lengths_differ("UCSORGFRONT"@, "ACAD_ENHANCEDBLOCKHISTORY"@);
    reveal_strlit("ASEBLOCKHIERARCHYINDEXRECORD");
    lemma_lengths_differ("UCSORGFRONT"@, "ASEBLOCKHIERARCHYINDEXRECORD"@);
    reveal_strlit("ADSK_XREC_LAYOUTTHUMBNAIL");
    lemma_lengths_differ("UCSORGFRONT"@, "ADSK_XREC_LAYOUTTHUMBNAIL"@);
    reveal_strlit("ADSK_XREC_VTRANIMATIONINFO");
    lemma_lengths_differ("UCSORGFRONT"@, "ADSK_XREC_VTRANIMATIONINFO"@);
    reveal_strlit("ADSK_XREC_VTRTHUMBNAIL");
    lemma_lengths_differ("UCSORGFRONT"@, "ADSK_XREC_VTRTHUMBNAIL"@);
    reveal_strlit("ADSK_XREC_VTRVIEWINFO");
    lemma_lengths_differ("UCSORGFRONT"@, "ADSK_XREC_VTRVIEWINFO"@);
    reveal_strlit("ADSK_XREC_PHOTOMETRICLIGHTINFO");
    lemma_lengths_differ("UCSORGFRONT"@, "ADSK_XREC_PHOTOMETRICLIGHTINFO"@);
    reveal_strlit("LIGHTINGQUALITY");
    lemma_lengths_differ("UCSORGFRONT"@, "LIGHTINGQUALITY"@);
    reveal_strlit("ACAD_LAST_SAVED_VERSION_INFO");
    lemma_lengths_differ("UCSORGFRONT"@, "ACAD_LAST_SAVED_VERSION_INFO"@);
    reveal_strlit("ACAD_CIP_PREVIOUS_PRODUCT_INFO");
    lemma_lengths_differ("UCSORGFRONT"@, "ACAD_CIP_PREVIOUS_PRODUCT_INFO"@);
    reveal_strlit("DWGPROPS");
    lemma_lengths_differ("UCSORGFRONT"@, "DWGPROPS"@);
    reveal_strlit("FINGERPRINTGUID");
    lemma_lengths_differ("UCSORGFRONT"@, "FINGERPRINTGUID"@);
    reveal_strlit("ACADDIM");
    lemma_lengths_differ("UCSORGFRONT"@, "ACADDIM"@);
    reveal_strlit("DIMSTYLEDATA");
    lemma_lengths_differ("UCSORGFRONT"@, "DIMSTYLEDATA"@);
    reveal_strlit("DIMLTEX1");
    lemma_lengths_differ("UCSORGFRONT"@, "DIMLTEX1"@);
    reveal_strlit("DIMLTEX2");
    lemma_lengths_differ("UCSORGFRONT"@, "DIMLTEX2"@);
    reveal_strlit("DIMLTYPE");
    lemma_lengths_differ("UCSORGFRONT"@, "DIMLTYPE"@);
    reveal_strlit("TSTACKALIGN");
    lemma_differ_at("UCSORGFRONT"@, "TSTACKALIGN"@, 0);
    reveal_strlit("TSTACKSIZE");
    lemma_lengths_differ("UCSORGFRONT"@, "TSTACKSIZE"@);
    reveal_strlit("PUCSBASE");
    lemma_lengths_differ("UCSORGFRONT"@, "PUCSBASE"@);
    reveal_strlit("PUCSORGBACK");
    lemma_differ_at("UCSORGFRONT"@, "PUCSORGBACK"@, 0);
    reveal_strlit("PUCSORGBOTTOM");
    lemma_lengths_differ("UCSORGFRONT"@, "PUCSORGBOTTOM"@);
    reveal_strlit("PUCSORGFRONT");
    lemma_lengths_differ("UCSORGFRONT"@, "PUCSORGFRONT"@);
    reveal_strlit("PUCSORGLEFT");
    lemma_differ_at("UCSORGFRONT"@, "PUCSORGLEFT"@, 0);
    reveal_strlit("PUCSORGRIGHT");
    lemma_lengths_differ("UCSORGFRONT"@, "PUCSORGRIGHT"@);
    reveal_strlit("PUCSORGTOP");
    lemma_lengths_differ("UCSORGFRONT"@, "PUCSORGTOP"@);
    reveal_strlit("PUCSORTHOREF");
    lemma_lengths_differ("UCSORGFRONT"@, "PUCSORTHOREF"@);
    reveal_strlit("PUCSORTHOVIEW");
    lemma_lengths_differ("UCSORGFRONT"@, "PUCSORTHOVIEW"@);
    reveal_strlit("UCSBASE");
    lemma_lengths_differ("UCSORGFRONT"@, "UCSBASE"@);
    reveal_strlit("UCSORGBACK");
    lemma_lengths_differ("UCSORGFRONT"@, "UCSORGBACK"@);
    reveal_strlit("UCSORGBOTTOM");
    lemma_lengths_differ("UCSORGFRONT"@, "UCSORGBOTTOM"@);
    law_kind_ignores_case(s, "UCSORGFRONT"@);
}

proof fn lemma_key_48(s: Seq<char>)
    requires
        eq_ci(s, "UCSORGLEFT"@),
    ensures
        known_kind_of(s) == KnownXRecordKind::UcsData,
{
    reveal_strlit("UCSORGLEFT");
    reveal_strlit("ADSK_XREC_LAYER_ALPHA_OVR");
    lemma_lengths_differ("UCSORGLEFT"@, "ADSK_XREC_LAYER_ALPHA_OVR"@);
    reveal_strlit("ADSK_XREC_LAYER_COLOR_OVR");
    lemma_lengths_differ("UCSORGLEFT"@, "ADSK_XREC_LAYER_COLOR_OVR"@);
    reveal_strlit("ADSK_XREC_LAYER_LINETYPE_OVR");
    lemma_lengths_differ("UCSORGLEFT"@, "ADSK_XREC_LAYER_LINETYPE_OVR"@);
    reveal_strlit("ADSK_XREC_LAYER_LINEWT_OVR");
    lemma_lengths_differ("UCSORGLEFT"@, "ADSK_XREC_LAYER_LINEWT_OVR"@);
    reveal_strlit("ADSK_XREC_LAYER_RECONCILED");
    lemma_lengths_differ("UCSORGLEFT"@, "ADSK_XREC_LAYER_RECONCILED"@);
    reveal_strlit("ACADLAYERSTATEANNOSCALE");
    lemma_lengths_differ("UCSORGLEFT"@, "ACADLAYERSTATEANNOSCALE"@);
    reveal_strlit("ASDK_XREC_ANNOTATION_SCALE_INFO");
    lemma_lengths_differ("UCSORGLEFT"@, "ASDK_XREC_ANNOTATION_SCALE_INFO"@);
    reveal_strlit("ASDK_XREC_ANNO_SCALE_INFO");
    lemma_lengths_differ("UCSORGLEFT"@, "ASDK_XREC_ANNO_SCALE_INFO"@);
    reveal_strlit("ADSK_XREC_VTR_ANNOSCALE_DATA");
    lemma_lengths_differ("UCSORGLEFT"@, "ADSK_XREC_VTR_ANNOSCALE_DATA"@);
    reveal_strlit("ADSK_XREC_SUBDVERTEXTEXCOORDS");
    lemma_lengths_differ("UCSORGLEFT"@, "ADSK_XREC_SUBDVERTEXTEXCOORDS"@);
    reveal_strlit("ACAD_XREC_ROUNDTRIP");
    lemma_lengths_differ("UCSORGLEFT"@, "ACAD_XREC_ROUNDTRIP"@);
    reveal_strlit("ACAD_MTEXT_RT");
    lemma_lengths_differ("UCSORGLEFT"@, "ACAD_MTEXT_RT"@);
    reveal_strlit("ACAD_MTEXT_2008_RT");
    lemma_lengths_differ("UCSORGLEFT"@, "ACAD_MTEXT_2008_RT"@);
    reveal_strlit("ACDBHEADERROUNDTRIPXREC");
    lemma_lengths_differ("UCSORGLEFT"@, "ACDBHEADERROUNDTRIPXREC"@);
    reveal_strlit("AUXHDRRNDTRIPDATA");
    lemma_lengths_differ("UCSORGLEFT"@, "AUXHDRRNDTRIPDATA"@);
    reveal_strlit("ACDB_RECOMPOSE_DATA");
    lemma_lengths_differ("UCSORGLEFT"@, "ACDB_RECOMPOSE_DATA"@);
    reveal_strlit("ACAD_ENHANCEDBLOCKHISTORY");
    lemma_lengths_differ("UCSORGLEFT"@, "ACAD_ENHANCEDBLOCKHISTORY"@);
    reveal_strlit("ASEBLOCKHIERARCHYINDEXRECORD");
    lemma_lengths_differ("UCSORGLEFT"@, "ASEBLOCKHIERARCHYINDEXRECORD"@);
    reveal_strlit("ADSK_XREC_LAYOUTTHUMBNAIL");
    lemma_lengths_differ("UCSORGLEFT"@, "ADSK_XREC_LAYOUTTHUMBNAIL"@);
    reveal_strlit("ADSK_XREC_VTRANIMATIONINFO");
    lemma_lengths_differ("UCSORGLEFT"@, "ADSK_XREC_VTRANIMATIONINFO"@);
    reveal_strlit("ADSK_XREC_VTRTHUMBNAIL");
    lemma_lengths_differ("UCSORGLEFT"@, "ADSK_XREC_VTRTHUMBNAIL"@);
    reveal_strlit("ADSK_XREC_VTRVIEWINFO");
    lemma_lengths_differ("UCSORGLEFT"@, "ADSK_XREC_VTRVIEWINFO"@);
    reveal_strlit("ADSK_XREC_PHOTOMETRICLIGHTINFO");
    lemma_lengths_differ("UCSORGLEFT"@, "ADSK_XREC_PHOTOMETRICLIGHTINFO"@);
    reveal_strlit("LIGHTINGQUALITY");
    lemma_lengths_differ("UCSORGLEFT"@, "LIGHTINGQUALITY"@);
    reveal_strlit("ACAD_LAST_SAVED_VERSION_INFO");
    lemma_lengths_differ("UCSORGLEFT"@, "ACAD_LAST_SAVED_VERSION_INFO"@);
    reveal_strlit("ACAD_CIP_PREVIOUS_PRODUCT_INFO");
    lemma_lengths_differ("UCSORGLEFT"@, "ACAD_CIP_PREVIOUS_PRODUCT_INFO"@);
    reveal_strlit("DWGPROPS");
    lemma_lengths_differ("UCSORGLEFT"@, "DWGPROPS"@);
    reveal_strlit("FINGERPRINTGUID");
    lemma_lengths_differ("UCSORGLEFT"@, "FINGERPRINTGUID"@);
    reveal_strlit("ACADDIM");
    lemma_lengths_differ("UCSORGLEFT"@, "ACADDIM"@);
    reveal_strlit("DIMSTYLEDATA");
    lemma_lengths_differ("UCSORGLEFT"@, "DIMSTYLEDATA"@);
    reveal_strlit("DIMLTEX1");
    lemma_lengths_differ("UCSORGLEFT"@, "DIMLTEX1"@);
    reveal_strlit("DIMLTEX2");
    lemma_lengths_differ("UCSORGLEFT"@, "DIMLTEX2"@);
    reveal_strlit("DIMLTYPE");
    lemma_lengths_differ("UCSORGLEFT"@, "DIMLTYPE"@);
    reveal_strlit("TSTACKALIGN");
    lemma_lengths_differ("UCSORGLEFT"@, "TSTACKALIGN"@);
    reveal_strlit("TSTACKSIZE");
    lemma_differ_at("UCSORGLEFT"@, "TSTACKSIZE"@, 0);
    reveal_strlit("PUCSBASE");
    lemma_lengths_differ("UCSORGLEFT"@, "PUCSBASE"@);
    reveal_strlit("PUCSORGBACK");
    lemma_lengths_differ("UCSORGLEFT"@, "PUCSORGBACK"@);
    reveal_strlit("PUCSORGBOTTOM");
    lemma_lengths_differ("UCSORGLEFT"@, "PUCSORGBOTTOM"@);
    reveal_strlit("PUCSORGFRONT");
    lemma_lengths_differ("UCSORGLEFT"@, "PUCSORGFRONT"@);
    reveal_strlit("PUCSORGLEFT");
    lemma_lengths_differ("UCSORGLEFT"@, "PUCSORGLEFT"@);
    reveal_strlit("PUCSORGRIGHT");
    lemma_lengths_differ("UCSORGLEFT"@, "PUCSORGRIGHT"@);
    reveal_strlit("PUCSORGTOP");
    lemma_differ_at("UCSORGLEFT"@, "PUCSORGTOP"@, 0);
    reveal_strlit("PUCSORTHOREF");
    lemma_lengths_differ("UCSORGLEFT"@, "PUCSORTHOREF"@);
    reveal_strlit("PUCSORTHOVIEW");
    lemma_lengths_differ("UCSORGLEFT"@, "PUCSORTHOVIEW"@);
    reveal_strlit("UCSBASE");
    lemma_lengths_differ("UCSORGLEFT"@, "UCSBASE"@);
    reveal_strlit("UCSORGBACK");
    lemma_differ_at("UCSORGLEFT"@, "UCSORGBACK"@, 6);
    reveal_strlit("UCSORGBOTTOM");
    lemma_lengths_differ("UCSORGLEFT"@, "UCSORGBOTTOM"@);
    reveal_strlit("UCSORGFRONT");
    lemma_lengths_differ("UCSORGLEFT"@, "UCSORGFRONT"@);
    law_kind_ignores_case(s, "UCSORGLEFT"@);
}

proof fn lemma_key_49(s: Seq<char>)
    requires
        eq_ci(s, "UCSORGRIGHT"@),
    ensures
        known_kind_of(s) == KnownXRecordKind::UcsData,
{
    reveal_strlit("UCSORGRIGHT");
    reveal_strlit("ADSK_XREC_LAYER_ALPHA_OVR");
    lemma_lengths_differ("UCSORGRIGHT"@, "ADSK_XREC_LAYER_ALPHA_OVR"@);
    reveal_strlit("ADSK_XREC_LAYER_COLOR_OVR");
    lemma_lengths_differ("UCSORGRIGHT"@, "ADSK_XREC_LAYER_COLOR_OVR"@);
    reveal_strlit("ADSK_XREC_LAYER_LINETYPE_OVR");
    lemma_lengths_differ("UCSORGRIGHT"@, "ADSK_XREC_LAYER_LINETYPE_OVR"@);
    reveal_strlit("ADSK_XREC_LAYER_LINEWT_OVR");
    lemma_lengths_differ("UCSORGRIGHT"@, "ADSK_XREC_LAYER_LINEWT_OVR"@);
    reveal_strlit("ADSK_XREC_LAYER_RECONCILED");
    lemma_lengths_differ("UCSORGRIGHT"@, "ADSK_XREC_LAYER_RECONCILED"@);
    reveal_strlit("ACADLAYERSTATEANNOSCALE");
    lemma_lengths_differ("UCSORGRIGHT"@, "ACADLAYERSTATEANNOSCALE"@);
    reveal_strlit("ASDK_XREC_ANNOTATION_SCALE_INFO");
    lemma_lengths_differ("UCSORGRIGHT"@, "ASDK_XREC_ANNOTATION_SCALE_INFO"@);
    reveal_strlit("ASDK_XREC_ANNO_SCALE_INFO");
    lemma_lengths_differ("UCSORGRIGHT"@, "ASDK_XREC_ANNO_SCALE_INFO"@);
    reveal_strlit("ADSK_XREC_VTR_ANNOSCALE_DATA");
    lemma_lengths_differ("UCSORGRIGHT"@, "ADSK_XREC_VTR_ANNOSCALE_DATA"@);
    reveal_strlit("ADSK_XREC_SUBDVERTEXTEXCOORDS");
    lemma_lengths_differ("UCSORGRIGHT"@, "ADSK_XREC_SUBDVERTEXTEXCOORDS"@);
    reveal_strlit("ACAD_XREC_ROUNDTRIP");
    lemma_lengths_differ("UCSORGRIGHT"@, "ACAD_XREC_ROUNDTRIP"@);
    reveal_strlit("ACAD_MTEXT_RT");
    lemma_lengths_differ("UCSORGRIGHT"@, "ACAD_MTEXT_RT"@);
    reveal_strlit("ACAD_MTEXT_2008_RT");
    lemma_lengths_differ("UCSORGRIGHT"@, "ACAD_MTEXT_2008_RT"@);
    reveal_strlit("ACDBHEADERROUNDTRIPXREC");
    lemma_lengths_differ("UCSORGRIGHT"@, "ACDBHEADERROUNDTRIPXREC"@);
    reveal_strlit("AUXHDRRNDTRIPDATA");
    lemma_lengths_differ("UCSORGRIGHT"@, "AUXHDRRNDTRIPDATA"@);
    reveal_strlit("ACDB_RECOMPOSE_DATA");
    lemma_lengths_differ("UCSORGRIGHT"@, "ACDB_RECOMPOSE_DATA"@);
    reveal_strlit("ACAD_ENHANCEDBLOCKHISTORY");
    lemma_lengths_differ("UCSORGRIGHT"@, "ACAD_ENHANCEDBLOCKHISTORY"@);
    reveal_strlit("ASEBLOCKHIERARCHYINDEXRECORD");
    lemma_lengths_differ("UCSORGRIGHT"@, "ASEBLOCKHIERARCHYINDEXRECORD"@);
    reveal_strlit("ADSK_XREC_LAYOUTTHUMBNAIL");
    lemma_lengths_differ("UCSORGRIGHT"@, "ADSK_XREC_LAYOUTTHUMBNAIL"@);
    reveal_strlit("ADSK_XREC_VTRANIMATIONINFO");
    lemma_lengths_differ("UCSORGRIGHT"@, "ADSK_XREC_VTRANIMATIONINFO"@);
    reveal_strlit("ADSK_XREC_VTRTHUMBNAIL");
    lemma_lengths_differ("UCSORGRIGHT"@, "ADSK_XREC_VTRTHUMBNAIL"@);
    reveal_strlit("ADSK_XREC_VTRVIEWINFO");
    lemma_lengths_differ("UCSORGRIGHT"@, "ADSK_XREC_VTRVIEWINFO"@);
    reveal_strlit("ADSK_XREC_PHOTOMETRICLIGHTINFO");
    lemma_lengths_differ("UCSORGRIGHT"@, "ADSK_XREC_PHOTOMETRICLIGHTINFO"@);
    reveal_strlit("LIGHTINGQUALITY");
    lemma_lengths_differ("UCSORGRIGHT"@, "LIGHTINGQUALITY"@);
    reveal_strlit("ACAD_LAST_SAVED_VERSION_INFO");
    lemma_lengths_differ("UCSORGRIGHT"@, "ACAD_LAST_SAVED_VERSION_INFO"@);
    reveal_strlit("ACAD_CIP_PREVIOUS_PRODUCT_INFO");
    lemma_lengths_differ("UCSORGRIGHT"@, "ACAD_CIP_PREVIOUS_PRODUCT_INFO"@);
    reveal_strlit("DWGPROPS");
    lemma_lengths_differ("UCSORGRIGHT"@, "DWGPROPS"@);
    reveal_strlit("FINGERPRINTGUID");
    lemma_lengths_differ("UCSORGRIGHT"@, "FINGERPRINTGUID"@);
    reveal_strlit("ACADDIM");
    lemma_lengths_differ("UCSORGRIGHT"@, "ACADDIM"@);
    reveal_strlit("DIMSTYLEDATA");
    lemma_lengths_differ("UCSORGRIGHT"@, "DIMSTYLEDATA"@);
    reveal_strlit("DIMLTEX1");
    lemma_lengths_differ("UCSORGRIGHT"@, "DIMLTEX1"@);
    reveal_strlit("DIMLTEX2");
    lemma_lengths_differ("UCSORGRIGHT"@, "DIMLTEX2"@);
    reveal_strlit("DIMLTYPE");
    lemma_lengths_differ("UCSORGRIGHT"@, "DIMLTYPE"@);
    reveal_strlit("TSTACKALIGN");
    lemma_differ_at("UCSORGRIGHT"@, "TSTACKALIGN"@, 0);
    reveal_strlit("TSTACKSIZE");
    lemma_lengths_differ("UCSORGRIGHT"@, "TSTACKSIZE"@);
    reveal_strlit("PUCSBASE");
    lemma_lengths_differ("UCSORGRIGHT"@, "PUCSBASE"@);
    reveal_strlit("PUCSORGBACK");
    lemma_differ_at("UCSORGRIGHT"@, "PUCSORGBACK"@, 0);
    reveal_strlit("PUCSORGBOTTOM");
    lemma_lengths_differ("UCSORGRIGHT"@, "PUCSORGBOTTOM"@);
    reveal_strlit("PUCSORGFRONT");
    lemma_lengths_differ("UCSORGRIGHT"@, "PUCSORGFRONT"@);
    reveal_strlit("PUCSORGLEFT");
    lemma_differ_at("UCSORGRIGHT"@, "PUCSORGLEFT"@, 0);
    reveal_strlit("PUCSORGRIGHT");
    lemma_lengths_differ("UCSORGRIGHT"@, "PUCSORGRIGHT"@);
    reveal_strlit("PUCSORGTOP");
    lemma_lengths_differ("UCSORGRIGHT"@, "PUCSORGTOP"@);
    reveal_strlit("PUCSORTHOREF");
    lemma_lengths_differ("UCSORGRIGHT"@, "PUCSORTHOREF"@);
    reveal_strlit("PUCSORTHOVIEW");
    lemma_lengths_differ("UCSORGRIGHT"@, "PUCSORTHOVIEW"@);
    reveal_strlit("UCSBASE");
    lemma_lengths_differ("UCSORGRIGHT"@, "UCSBASE"@);
    reveal_strlit("UCSORGBACK");
    lemma_lengths_differ("UCSORGRIGHT"@, "UCSORGBACK"@);
    reveal_strlit("UCSORGBOTTOM");
    lemma_lengths_differ("UCSORGRIGHT"@, "UCSORGBOTTOM"@);
    reveal_strlit("UCSORGFRONT");
    lemma_differ_at("UCSORGRIGHT"@, "UCSORGFRONT"@, 6);
    reveal_strlit("UCSORGLEFT");
    lemma_lengths_differ("UCSORGRIGHT"@, "UCSORGLEFT"@);
    law_kind_ignores_case(s, "UCSORGRIGHT"@);
}

proof fn lemma_key_50(s: Seq<char>)
    requires
        eq_ci(s, "UCSORGTOP"@),
    ensures
        known_kind_of(s) == KnownXRecordKind::UcsData,
{
    reveal_strlit("UCSORGTOP");
    reveal_strlit("ADSK_XREC_LAYER_ALPHA_OVR");
    lemma_lengths_differ("UCSORGTOP"@, "ADSK_XREC_LAYER_ALPHA_OVR"@);
    reveal_strlit("ADSK_XREC_LAYER_COLOR_OVR");
    lemma_lengths_differ("UCSORGTOP"@, "ADSK_XREC_LAYER_COLOR_OVR"@);
    reveal_strlit("ADSK_XREC_LAYER_LINETYPE_OVR");
    lemma_lengths_differ("UCSORGTOP"@, "ADSK_XREC_LAYER_LINETYPE_OVR"@);
    reveal_strlit("ADSK_XREC_LAYER_LINEWT_OVR");
    lemma_lengths_differ("UCSORGTOP"@, "ADSK_XREC_LAYER_LINEWT_OVR"@);
    reveal_strlit("ADSK_XREC_LAYER_RECONCILED");
    lemma_lengths_differ("UCSORGTOP"@, "ADSK_XREC_LAYER_RECONCILED"@);
    reveal_strlit("ACADLAYERSTATEANNOSCALE");
    lemma_lengths_differ("UCSORGTOP"@, "ACADLAYERSTATEANNOSCALE"@);
    reveal_strlit("ASDK_XREC_ANNOTATION_SCALE_INFO");
    lemma_lengths_differ("UCSORGTOP"@, "ASDK_XREC_ANNOTATION_SCALE_INFO"@);
    reveal_strlit("ASDK_XREC_ANNO_SCALE_INFO");
    lemma_lengths_differ("UCSORGTOP"@, "ASDK_XREC_ANNO_SCALE_INFO"@);
    reveal_strlit("ADSK_XREC_VTR_ANNOSCALE_DATA");
    lemma_lengths_differ("UCSORGTOP"@, "ADSK_XREC_VTR_ANNOSCALE_DATA"@);
    reveal_strlit("ADSK_XREC_SUBDVERTEXTEXCOORDS");
    lemma_lengths_differ("UCSORGTOP"@, "ADSK_XREC_SUBDVERTEXTEXCOORDS"@);
    reveal_strlit("ACAD_XREC_ROUNDTRIP");
    lemma_lengths_differ("UCSORGTOP"@, "ACAD_XREC_ROUNDTRIP"@);
    reveal_strlit("ACAD_MTEXT_RT");
    lemma_lengths_differ("UCSORGTOP"@, "ACAD_MTEXT_RT"@);
    reveal_strlit("ACAD_MTEXT_2008_RT");
    lemma_lengths_differ("UCSORGTOP"@, "ACAD_MTEXT_2008_RT"@);
    reveal_strlit("ACDBHEADERROUNDTRIPXREC");
    lemma_lengths_differ("UCSORGTOP"@, "ACDBHEADERROUNDTRIPXREC"@);
    reveal_strlit("AUXHDRRNDTRIPDATA");
    lemma_lengths_differ("UCSORGTOP"@, "AUXHDRRNDTRIPDATA"@);
    reveal_strlit("ACDB_RECOMPOSE_DATA");
    lemma_lengths_differ("UCSORGTOP"@, "ACDB_RECOMPOSE_DATA"@);
    reveal_strlit("ACAD_ENHANCEDBLOCKHISTORY");
    lemma_lengths_differ("UCSORGTOP"@, "ACAD_ENHANCEDBLOCKHISTORY"@);
    reveal_strlit("ASEBLOCKHIERARCHYINDEXRECORD");
    lemma_lengths_differ("UCSORGTOP"@, "ASEBLOCKHIERARCHYINDEXRECORD"@);
    reveal_strlit("ADSK_XREC_LAYOUTTHUMBNAIL");
    lemma_lengths_differ("UCSORGTOP"@, "ADSK_XREC_LAYOUTTHUMBNAIL"@);
    reveal_strlit("ADSK_XREC_VTRANIMATIONINFO");
    lemma_lengths_differ("UCSORGTOP"@, "ADSK_XREC_VTRANIMATIONINFO"@);
    reveal_strlit("ADSK_XREC_VTRTHUMBNAIL");
    lemma_lengths_differ("UCSORGTOP"@, "ADSK_XREC_VTRTHUMBNAIL"@);
    reveal_strlit("ADSK_XREC_VTRVIEWINFO");
    lemma_lengths_differ("UCSORGTOP"@, "ADSK_XREC_VTRVIEWINFO"@);
    reveal_strlit("ADSK_XREC_PHOTOMETRICLIGHTINFO");
    lemma_lengths_differ("UCSORGTOP"@, "ADSK_XREC_PHOTOMETRICLIGHTINFO"@);
    reveal_strlit("LIGHTINGQUALITY");
    lemma_lengths_differ("UCSORGTOP"@, "LIGHTINGQUALITY"@);
    reveal_strlit("ACAD_LAST_SAVED_VERSION_INFO");
    lemma_lengths_differ("UCSORGTOP"@, "ACAD_LAST_SAVED_VERSION_INFO"@);
    reveal_strlit("ACAD_CIP_PREVIOUS_PRODUCT_INFO");
    lemma_lengths_differ("UCSORGTOP"@, "ACAD_CIP_PREVIOUS_PRODUCT_INFO"@);
    reveal_strlit("DWGPROPS");
    lemma_lengths_differ("UCSORGTOP"@, "DWGPROPS"@);
    reveal_strlit("FINGERPRINTGUID");
    lemma_lengths_differ("UCSORGTOP"@, "FINGERPRINTGUID"@);
    reveal_strlit("ACADDIM");
    lemma_lengths_differ("UCSORGTOP"@, "ACADDIM"@);
    reveal_strlit("DIMSTYLEDATA");
    lemma_lengths_differ("UCSORGTOP"@, "DIMSTYLEDATA"@);
    reveal_strlit("DIMLTEX1");
    lemma_lengths_differ("UCSORGTOP"@, "DIMLTEX1"@);
    reveal_strlit("DIMLTEX2");
    lemma_lengths_differ("UCSORGTOP"@, "DIMLTEX2"@);
    reveal_strlit("DIMLTYPE");
    lemma_lengths_differ("UCSORGTOP"@, "DIMLTYPE"@);
    reveal_strlit("TSTACKALIGN");
    lemma_lengths_differ("UCSORGTOP"@, "TSTACKALIGN"@);
    reveal_strlit("TSTACKSIZE");
    lemma_lengths_differ("UCSORGTOP"@, "TSTACKSIZE"@);
    reveal_strlit("PUCSBASE");
    lemma_lengths_differ("UCSORGTOP"@, "PUCSBASE"@);
    reveal_strlit("PUCSORGBACK");
    lemma_lengths_differ("UCSORGTOP"@, "PUCSORGBACK"@);
    reveal_strlit("PUCSORGBOTTOM");
    lemma_lengths_differ("UCSORGTOP"@, "PUCSORGBOTTOM"@);
    reveal_strlit("PUCSORGFRONT");
    lemma_lengths_differ("UCSORGTOP"@, "PUCSORGFRONT"@);
    reveal_strlit("PUCSORGLEFT");
    lemma_lengths_differ("UCSORGTOP"@, "PUCSORGLEFT"@);
    reveal_strlit("PUCSORGRIGHT");
    lemma_lengths_differ("UCSORGTOP"@, "PUCSORGRIGHT"@);
    reveal_strlit("PUCSORGTOP");
    lemma_lengths_differ("UCSORGTOP"@, "PUCSORGTOP"@);
    reveal_strlit("PUCSORTHOREF");
    lemma_lengths_differ("UCSORGTOP"@, "PUCSORTHOREF"@);
    reveal_strlit("PUCSORTHOVIEW");
    lemma_lengths_differ("UCSORGTOP"@, "PUCSORTHOVIEW"@);
    reveal_strlit("UCSBASE");
    lemma_lengths_differ("UCSORGTOP"@, "UCSBASE"@);
    reveal_strlit("UCSORGBACK");
    lemma_lengths_differ("UCSORGTOP"@, "UCSORGBACK"@);
    reveal_strlit("UCSORGBOTTOM");
    lemma_lengths_differ("UCSORGTOP"@, "UCSORGBOTTOM"@);
    reveal_strlit("UCSORGFRONT");
    lemma_lengths_differ("UCSORGTOP"@, "UCSORGFRONT"@);
    reveal_strlit("UCSORGLEFT");
    lemma_lengths_differ("UCSORGTOP"@, "UCSORGLEFT"@);
    reveal_strlit("UCSORGRIGHT");
    lemma_lengths_differ("UCSORGTOP"@, "UCSORGRIGHT"@);
    law_kind_ignores_case(s, "UCSORGTOP"@);
}

proof fn lemma_key_51(s: Seq<char>)
    requires
        eq_ci(s, "UCSORTHOREF"@),
    ensures
        known_kind_of(s) == KnownXRecordKind::UcsData,
{
    reveal_strlit("UCSORTHOREF");
    reveal_strlit("ADSK_XREC_LAYER_ALPHA_OVR");
    lemma_lengths_differ("UCSORTHOREF"@, "ADSK_XREC_LAYER_ALPHA_OVR"@);
    reveal_strlit("ADSK_XREC_LAYER_COLOR_OVR");
    lemma_lengths_differ("UCSORTHOREF"@, "ADSK_XREC_LAYER_COLOR_OVR"@);
    reveal_strlit("ADSK_XREC_LAYER_LINETYPE_OVR");
    lemma_lengths_differ("UCSORTHOREF"@, "ADSK_XREC_LAYER_LINETYPE_OVR"@);
    reveal_strlit("ADSK_XREC_LAYER_LINEWT_OVR");
    lemma_lengths_differ("UCSORTHOREF"@, "ADSK_XREC_LAYER_LINEWT_OVR"@);
    reveal_strlit("ADSK_XREC_LAYER_RECONCILED");
    lemma_lengths_differ("UCSORTHOREF"@, "ADSK_XREC_LAYER_RECONCILED"@);
    reveal_strlit("ACADLAYERSTATEANNOSCALE");
    lemma_lengths_differ("UCSORTHOREF"@, "ACADLAYERSTATEANNOSCALE"@);
    reveal_strlit("ASDK_XREC_ANNOTATION_SCALE_INFO");
    lemma_lengths_differ("UCSORTHOREF"@, "ASDK_XREC_ANNOTATION_SCALE_INFO"@);
    reveal_strlit("ASDK_XREC_ANNO_SCALE_INFO");
    lemma_lengths_differ("UCSORTHOREF"@, "ASDK_XREC_ANNO_SCALE_INFO"@);
    reveal_strlit("ADSK_XREC_VTR_ANNOSCALE_DATA");
    lemma_lengths_differ("UCSORTHOREF"@, "ADSK_XREC_VTR_ANNOSCALE_DATA"@);
    reveal_strlit("ADSK_XREC_SUBDVERTEXTEXCOORDS");
    lemma_lengths_differ("UCSORTHOREF"@, "ADSK_XREC_SUBDVERTEXTEXCOORDS"@);
    reveal_strlit("ACAD_XREC_ROUNDTRIP");
    lemma_lengths_differ("UCSORTHOREF"@, "ACAD_XREC_ROUNDTRIP"@);
    reveal_strlit("ACAD_MTEXT_RT");
    lemma_lengths_differ("UCSORTHOREF"@, "ACAD_MTEXT_RT"@);
    reveal_strlit("ACAD_MTEXT_2008_RT");
    lemma_lengths_differ("UCSORTHOREF"@, "ACAD_MTEXT_2008_RT"@);
    reveal_strlit("ACDBHEADERROUNDTRIPXREC");
    lemma_lengths_differ("UCSORTHOREF"@, "ACDBHEADERROUNDTRIPXREC"@);
    reveal_strlit("AUXHDRRNDTRIPDATA");
    lemma_lengths_differ("UCSORTHOREF"@, "AUXHDRRNDTRIPDATA"@);
    reveal_strlit("ACDB_RECOMPOSE_DATA");
    lemma_lengths_differ("UCSORTHOREF"@, "ACDB_RECOMPOSE_DATA"@);
    reveal_strlit("ACAD_ENHANCEDBLOCKHISTORY");
    lemma_lengths_differ("UCSORTHOREF"@, "ACAD_ENHANCEDBLOCKHISTORY"@);
    reveal_strlit("ASEBLOCKHIERARCHYINDEXRECORD");
    lemma_lengths_differ("UCSORTHOREF"@, "ASEBLOCKHIERARCHYINDEXRECORD"@);
    reveal_strlit("ADSK_XREC_LAYOUTTHUMBNAIL");
    lemma_lengths_differ("UCSORTHOREF"@, "ADSK_XREC_LAYOUTTHUMBNAIL"@);
    reveal_strlit("ADSK_XREC_VTRANIMATIONINFO");
    lemma_lengths_differ("UCSORTHOREF"@, "ADSK_XREC_VTRANIMATIONINFO"@);
    reveal_strlit("ADSK_XREC_VTRTHUMBNAIL");
    lemma_lengths_differ("UCSORTHOREF"@, "ADSK_XREC_VTRTHUMBNAIL"@);
    reveal_strlit("ADSK_XREC_VTRVIEWINFO");
    lemma_lengths_differ("UCSORTHOREF"@, "ADSK_XREC_VTRVIEWINFO"@);
    reveal_strlit("ADSK_XREC_PHOTOMETRICLIGHTINFO");
    lemma_lengths_differ("UCSORTHOREF"@, "ADSK_XREC_PHOTOMETRICLIGHTINFO"@);
    reveal_strlit("LIGHTINGQUALITY");
    lemma_lengths_differ("UCSORTHOREF"@, "LIGHTINGQUALITY"@);
    reveal_strlit("ACAD_LAST_SAVED_VERSION_INFO");
    lemma_lengths_differ("UCSORTHOREF"@, "ACAD_LAST_SAVED_VERSION_INFO"@);
    reveal_strlit("ACAD_CIP_PREVIOUS_PRODUCT_INFO");
    lemma_lengths_differ("UCSORTHOREF"@, "ACAD_CIP_PREVIOUS_PRODUCT_INFO"@);
    reveal_strlit("DWGPROPS");
    lemma_lengths_differ("UCSORTHOREF"@, "DWGPROPS"@);
    reveal_strlit("FINGERPRINTGUID");
    lemma_lengths_differ("UCSORTHOREF"@, "FINGERPRINTGUID"@);
    reveal_strlit("ACADDIM");
    lemma_lengths_differ("UCSORTHOREF"@, "ACADDIM"@);
    reveal_strlit("DIMSTYLEDATA");
    lemma_lengths_differ("UCSORTHOREF"@, "DIMSTYLEDATA"@);
    reveal_strlit("DIMLTEX1");
    lemma_lengths_differ("UCSORTHOREF"@, "DIMLTEX1"@);
    reveal_strlit("DIMLTEX2");
    lemma_lengths_differ("UCSORTHOREF"@, "DIMLTEX2"@);
    reveal_strlit("DIMLTYPE");
    lemma_lengths_differ("UCSORTHOREF"@, "DIMLTYPE"@);
    reveal_strlit("TSTACKALIGN");
    lemma_differ_at("UCSORTHOREF"@, "TSTACKALIGN"@, 0);
    reveal_strlit("TSTACKSIZE");
    lemma_lengths_differ("UCSORTHOREF"@, "TSTACKSIZE"@);
    reveal_strlit("PUCSBASE");
    lemma_lengths_differ("UCSORTHOREF"@, "PUCSBASE"@);
    reveal_strlit("PUCSORGBACK");
    lemma_differ_at("UCSORTHOREF"@, "PUCSORGBACK"@, 0);
    reveal_strlit("PUCSORGBOTTOM");
    lemma_lengths_differ("UCSORTHOREF"@, "PUCSORGBOTTOM"@);
    reveal_strlit("PUCSORGFRONT");
    lemma_lengths_differ("UCSORTHOREF"@, "PUCSORGFRONT"@);
    reveal_strlit("PUCSORGLEFT");
    lemma_differ_at("UCSORTHOREF"@, "PUCSORGLEFT"@, 0);
    reveal_strlit("PUCSORGRIGHT");
    lemma_lengths_differ("UCSORTHOREF"@, "PUCSORGRIGHT"@);
    reveal_strlit("PUCSORGTOP");
    lemma_lengths_differ("UCSORTHOREF"@, "PUCSORGTOP"@);
    reveal_strlit("PUCSORTHOREF");
    lemma_lengths_differ("UCSORTHOREF"@, "PUCSORTHOREF"@);
    reveal_strlit("PUCSORTHOVIEW");
    lemma_lengths_differ("UCSORTHOREF"@, "PUCSORTHOVIEW"@);
    reveal_strlit("UCSBASE");
    lemma_lengths_differ("UCSORTHOREF"@, "UCSBASE"@);
    reveal_strlit("UCSORGBACK");
    lemma_lengths_differ("UCSORTHOREF"@, "UCSORGBACK"@);
    reveal_strlit("UCSORGBOTTOM");
    lemma_lengths_differ("UCSORTHOREF"@, "UCSORGBOTTOM"@);
    reveal_strlit("UCSORGFRONT");
    lemma_differ_at("UCSORTHOREF"@, "UCSORGFRONT"@, 5);
    reveal_strlit("UCSORGLEFT");
    lemma_lengths_differ("UCSORTHOREF"@, "UCSORGLEFT"@);
    reveal_strlit("UCSORGRIGHT");
    lemma_differ_at("UCSORTHOREF"@, "UCSORGRIGHT"@, 5);
    reveal_strlit("UCSORGTOP");
    lemma_lengths_differ("UCSORTHOREF"@, "UCSORGTOP"@);
    law_kind_ignores_case(s, "UCSORTHOREF"@);
}

proof fn lemma_key_52(s: Seq<char>)
    requires
        eq_ci(s, "UCSORTHOVIEW"@),
    ensures
        known_kind_of(s) == KnownXRecordKind::UcsData,
{
    reveal_strlit("UCSORTHOVIEW");
    reveal_strlit("ADSK_XREC_LAYER_ALPHA_OVR");
    lemma_lengths_differ("UCSORTHOVIEW"@, "ADSK_XREC_LAYER_ALPHA_OVR"@);
    reveal_strlit("ADSK_XREC_LAYER_COLOR_OVR");
    lemma_lengths_differ("UCSORTHOVIEW"@, "ADSK_XREC_LAYER_COLOR_OVR"@);
    reveal_strlit("ADSK_XREC_LAYER_LINETYPE_OVR");
    lemma_lengths_differ("UCSORTHOVIEW"@, "ADSK_XREC_LAYER_LINETYPE_OVR"@);
    reveal_strlit("ADSK_XREC_LAYER_LINEWT_OVR");
    lemma_lengths_differ("UCSORTHOVIEW"@, "ADSK_XREC_LAYER_LINEWT_OVR"@);
    reveal_strlit("ADSK_XREC_LAYER_RECONCILED");
    lemma_lengths_differ("UCSORTHOVIEW"@, "ADSK_XREC_LAYER_RECONCILED"@);
    reveal_strlit("ACADLAYERSTATEANNOSCALE");
    lemma_lengths_differ("UCSORTHOVIEW"@, "ACADLAYERSTATEANNOSCALE"@);
    reveal_strlit("ASDK_XREC_ANNOTATION_SCALE_INFO");
    lemma_lengths_differ("UCSORTHOVIEW"@, "ASDK_XREC_ANNOTATION_SCALE_INFO"@);
    reveal_strlit("ASDK_XREC_ANNO_SCALE_INFO");
    lemma_lengths_differ("UCSORTHOVIEW"@, "ASDK_XREC_ANNO_SCALE_INFO"@);
    reveal_strlit("ADSK_XREC_VTR_ANNOSCALE_DATA");
    lemma_lengths_differ("UCSORTHOVIEW"@, "ADSK_XREC_VTR_ANNOSCALE_DATA"@);
    reveal_strlit("ADSK_XREC_SUBDVERTEXTEXCOORDS");
    lemma_lengths_differ("UCSORTHOVIEW"@, "ADSK_XREC_SUBDVERTEXTEXCOORDS"@);
    reveal_strlit("ACAD_XREC_ROUNDTRIP");
    lemma_lengths_differ("UCSORTHOVIEW"@, "ACAD_XREC_ROUNDTRIP"@);
    reveal_strlit("ACAD_MTEXT_RT");
    lemma_lengths_differ("UCSORTHOVIEW"@, "ACAD_MTEXT_RT"@);
    reveal_strlit("ACAD_MTEXT_2008_RT");
    lemma_lengths_differ("UCSORTHOVIEW"@, "ACAD_MTEXT_2008_RT"@);
    reveal_strlit("ACDBHEADERROUNDTRIPXREC");
    lemma_lengths_differ("UCSORTHOVIEW"@, "ACDBHEADERROUNDTRIPXREC"@);
    reveal_strlit("AUXHDRRNDTRIPDATA");
    lemma_lengths_differ("UCSORTHOVIEW"@, "AUXHDRRNDTRIPDATA"@);
    reveal_strlit("ACDB_RECOMPOSE_DATA");
    lemma_lengths_differ("UCSORTHOVIEW"@, "ACDB_RECOMPOSE_DATA"@);
    reveal_strlit("ACAD_ENHANCEDBLOCKHISTORY");
    lemma_lengths_differ("UCSORTHOVIEW"@, "ACAD_ENHANCEDBLOCKHISTORY"@);
    reveal_strlit("ASEBLOCKHIERARCHYINDEXRECORD");
    lemma_lengths_differ("UCSORTHOVIEW"@, "ASEBLOCKHIERARCHYINDEXRECORD"@);
    reveal_strlit("ADSK_XREC_LAYOUTTHUMBNAIL");
    lemma_lengths_differ("UCSORTHOVIEW"@, "ADSK_XREC_LAYOUTTHUMBNAIL"@);
    reveal_strlit("ADSK_XREC_VTRANIMATIONINFO");
    lemma_lengths_differ("UCSORTHOVIEW"@, "ADSK_XREC_VTRANIMATIONINFO"@);
    reveal_strlit("ADSK_XREC_VTRTHUMBNAIL");
    lemma_lengths_differ("UCSORTHOVIEW"@, "ADSK_XREC_VTRTHUMBNAIL"@);
    reveal_strlit("ADSK_XREC_VTRVIEWINFO");
    lemma_lengths_differ("UCSORTHOVIEW"@, "ADSK_XREC_VTRVIEWINFO"@);
    reveal_strlit("ADSK_XREC_PHOTOMETRICLIGHTINFO");
    lemma_lengths_differ("UCSORTHOVIEW"@, "ADSK_XREC_PHOTOMETRICLIGHTINFO"@);
    reveal_strlit("LIGHTINGQUALITY");
    lemma_lengths_differ("UCSORTHOVIEW"@, "LIGHTINGQUALITY"@);
    reveal_strlit("ACAD_LAST_SAVED_VERSION_INFO");
    lemma_lengths_differ("UCSORTHOVIEW"@, "ACAD_LAST_SAVED_VERSION_INFO"@);
    reveal_strlit("ACAD_CIP_PREVIOUS_PRODUCT_INFO");
    lemma_lengths_differ("UCSORTHOVIEW"@, "ACAD_CIP_PREVIOUS_PRODUCT_INFO"@);
    reveal_strlit("DWGPROPS");
    lemma_lengths_differ("UCSORTHOVIEW"@, "DWGPROPS"@);
    reveal_strlit("FINGERPRINTGUID");
    lemma_lengths_differ("UCSORTHOVIEW"@, "FINGERPRINTGUID"@);
    reveal_strlit("ACADDIM");
    lemma_lengths_differ("UCSORTHOVIEW"@, "ACADDIM"@);
    reveal_strlit("DIMSTYLEDATA");
    lemma_differ_at("UCSORTHOVIEW"@, "DIMSTYLEDATA"@, 0);
    reveal_strlit("DIMLTEX1");
    lemma_lengths_differ("UCSORTHOVIEW"@, "DIMLTEX1"@);
    reveal_strlit("DIMLTEX2");
    lemma_lengths_differ("UCSORTHOVIEW"@, "DIMLTEX2"@);
    reveal_strlit("DIMLTYPE");
    lemma_lengths_differ("UCSORTHOVIEW"@, "DIMLTYPE"@);
    reveal_strlit("TSTACKALIGN");
    lemma_lengths_differ("UCSORTHOVIEW"@, "TSTACKALIGN"@);
    reveal_strlit("TSTACKSIZE");
    lemma_lengths_differ("UCSORTHOVIEW"@, "TSTACKSIZE"@);
    reveal_strlit("PUCSBASE");
    lemma_lengths_differ("UCSORTHOVIEW"@, "PUCSBASE"@);
    reveal_strlit("PUCSORGBACK");
    lemma_lengths_differ("UCSORTHOVIEW"@, "PUCSORGBACK"@);
    reveal_strlit("PUCSORGBOTTOM");
    lemma_lengths_differ("UCSORTHOVIEW"@, "PUCSORGBOTTOM"@);
    reveal_strlit("PUCSORGFRONT");
    lemma_differ_at("UCSORTHOVIEW"@, "PUCSORGFRONT"@, 0);
    reveal_strlit("PUCSORGLEFT");
    lemma_lengths_differ("UCSORTHOVIEW"@, "PUCSORGLEFT"@);
    reveal_strlit("PUCSORGRIGHT");
    lemma_differ_at("UCSORTHOVIEW"@, "PUCSORGRIGHT"@, 0);
    reveal_strlit("PUCSORGTOP");
    lemma_lengths_differ("UCSORTHOVIEW"@, "PUCSORGTOP"@);
    reveal_strlit("PUCSORTHOREF");
    lemma_differ_at("UCSORTHOVIEW"@, "PUCSORTHOREF"@, 0);
    reveal_strlit("PUCSORTHOVIEW");
    lemma_lengths_differ("UCSORTHOVIEW"@, "PUCSORTHOVIEW"@);
    reveal_strlit("UCSBASE");
    lemma_lengths_differ("UCSORTHOVIEW"@, "UCSBASE"@);
    reveal_strlit("UCSORGBACK");
    lemma_lengths_differ("UCSORTHOVIEW"@, "UCSORGBACK"@);
    reveal_strlit("UCSORGBOTTOM");
    lemma_differ_at("UCSORTHOVIEW"@, "UCSORGBOTTOM"@, 5);
    reveal_strlit("UCSORGFRONT");
    lemma_lengths_differ("UCSORTHOVIEW"@, "UCSORGFRONT"@);
    reveal_strlit("UCSORGLEFT");
    lemma_lengths_differ("UCSORTHOVIEW"@, "UCSORGLEFT"@);
    reveal_strlit("UCSORGRIGHT");
    lemma_lengths_differ("UCSORTHOVIEW"@, "UCSORGRIGHT"@);
    reveal_strlit("UCSORGTOP");
    lemma_lengths_differ("UCSORTHOVIEW"@, "UCSORGTOP"@);
    reveal_strlit("UCSORTHOREF");
    lemma_lengths_differ("UCSORTHOVIEW"@, "UCSORTHOREF"@);
    law_kind_ignores_case(s, "UCSORTHOVIEW"@);
}

proof fn lemma_key_53(s: Seq<char>)
    requires
        eq_ci(s, "ACAD_LAYOUTSELFREF"@),
    ensures
        known_kind_of(s) == KnownXRecordKind::PlotData,
{
    reveal_strlit("ACAD_LAYOUTSELFREF");
    reveal_strlit("ADSK_XREC_LAYER_ALPHA_OVR");
    lemma_lengths_differ("ACAD_LAYOUTSELFREF"@, "ADSK_XREC_LAYER_ALPHA_OVR"@);
    reveal_strlit("ADSK_XREC_LAYER_COLOR_OVR");
    lemma_lengths_differ("ACAD_LAYOUTSELFREF"@, "ADSK_XREC_LAYER_COLOR_OVR"@);
    reveal_strlit("ADSK_XREC_LAYER_LINETYPE_OVR");
    lemma_lengths_differ("ACAD_LAYOUTSELFREF"@, "ADSK_XREC_LAYER_LINETYPE_OVR"@);
    reveal_strlit("ADSK_XREC_LAYER_LINEWT_OVR");
    lemma_lengths_differ("ACAD_LAYOUTSELFREF"@, "ADSK_XREC_LAYER_LINEWT_OVR"@);
    reveal_strlit("ADSK_XREC_LAYER_RECONCILED");
    lemma_lengths_differ("ACAD_LAYOUTSELFREF"@, "ADSK_XREC_LAYER_RECONCILED"@);
    reveal_strlit("ACADLAYERSTATEANNOSCALE");
    lemma_lengths_differ("ACAD_LAYOUTSELFREF"@, "ACADLAYERSTATEANNOSCALE"@);
    reveal_strlit("ASDK_XREC_ANNOTATION_SCALE_INFO");
    lemma_lengths_differ("ACAD_LAYOUTSELFREF"@, "ASDK_XREC_ANNOTATION_SCALE_INFO"@);
    reveal_strlit("ASDK_XREC_ANNO_SCALE_INFO");
    lemma_lengths_differ("ACAD_LAYOUTSELFREF"@, "ASDK_XREC_ANNO_SCALE_INFO"@);
    reveal_strlit("ADSK_XREC_VTR_ANNOSCALE_DATA");
    lemma_lengths_differ("ACAD_LAYOUTSELFREF"@, "ADSK_XREC_VTR_ANNOSCALE_DATA"@);
    reveal_strlit("ADSK_XREC_SUBDVERTEXTEXCOORDS");
    lemma_lengths_differ("ACAD_LAYOUTSELFREF"@, "ADSK_XREC_SUBDVERTEXTEXCOORDS"@);
    reveal_strlit("ACAD_XREC_ROUNDTRIP");
    lemma_lengths_differ("ACAD_LAYOUTSELFREF"@, "ACAD_XREC_ROUNDTRIP"@);
    reveal_strlit("ACAD_MTEXT_RT");
    lemma_lengths_differ("ACAD_LAYOUTSELFREF"@, "ACAD_MTEXT_RT"@);
    reveal_strlit("ACAD_MTEXT_2008_RT");
    lemma_differ_at("ACAD_LAYOUTSELFREF"@, "ACAD_MTEXT_2008_RT"@, 5);
    reveal_strlit("ACDBHEADERROUNDTRIPXREC");
    lemma_lengths_differ("ACAD_LAYOUTSELFREF"@, "ACDBHEADERROUNDTRIPXREC"@);
    reveal_strlit("AUXHDRRNDTRIPDATA");
    lemma_lengths_differ("ACAD_LAYOUTSELFREF"@, "AUXHDRRNDTRIPDATA"@);
    reveal_strlit("ACDB_RECOMPOSE_DATA");
    lemma_lengths_differ("ACAD_LAYOUTSELFREF"@, "ACDB_RECOMPOSE_DATA"@);
    reveal_strlit("ACAD_ENHANCEDBLOCKHISTORY");
    lemma_lengths_differ("ACAD_LAYOUTSELFREF"@, "ACAD_ENHANCEDBLOCKHISTORY"@);
    reveal_strlit("ASEBLOCKHIERARCHYINDEXRECORD");
    lemma_lengths_differ("ACAD_LAYOUTSELFREF"@, "ASEBLOCKHIERARCHYINDEXRECORD"@);
    reveal_strlit("ADSK_XREC_LAYOUTTHUMBNAIL");
    lemma_lengths_differ("ACAD_LAYOUTSELFREF"@, "ADSK_XREC_LAYOUTTHUMBNAIL"@);
    reveal_strlit("ADSK_XREC_VTRANIMATIONINFO");
    lemma_lengths_differ("ACAD_LAYOUTSELFREF"@, "ADSK_XREC_VTRANIMATIONINFO"@);
    reveal_strlit("ADSK_XREC_VTRTHUMBNAIL");
    lemma_lengths_differ("ACAD_LAYOUTSELFREF"@, "ADSK_XREC_VTRTHUMBNAIL"@);
    reveal_strlit("ADSK_XREC_VTRVIEWINFO");
    lemma_lengths_differ("ACAD_LAYOUTSELFREF"@, "ADSK_XREC_VTRVIEWINFO"@);
    reveal_strlit("ADSK_XREC_PHOTOMETRICLIGHTINFO");
    lemma_lengths_differ("ACAD_LAYOUTSELFREF"@, "ADSK_XREC_PHOTOMETRICLIGHTINFO"@);
    reveal_strlit("LIGHTINGQUALITY");
    lemma_lengths_differ("ACAD_LAYOUTSELFREF"@, "LIGHTINGQUALITY"@);
    reveal_strlit("ACAD_LAST_SAVED_VERSION_INFO");
    lemma_lengths_differ("ACAD_LAYOUTSELFREF"@, "ACAD_LAST_SAVED_VERSION_INFO"@);
    reveal_strlit("ACAD_CIP_PREVIOUS_PRODUCT_INFO");
    lemma_lengths_differ("ACAD_LAYOUTSELFREF"@, "ACAD_CIP_PREVIOUS_PRODUCT_INFO"@);
    reveal_strlit("DWGPROPS");
    lemma_lengths_differ("ACAD_LAYOUTSELFREF"@, "DWGPROPS"@);
    reveal_strlit("FINGERPRINTGUID");
    lemma_lengths_differ("ACAD_LAYOUTSELFREF"@, "FINGERPRINTGUID"@);
    reveal_strlit("ACADDIM");
    lemma_lengths_differ("ACAD_LAYOUTSELFREF"@, "ACADDIM"@);
    reveal_strlit("DIMSTYLEDATA");
    lemma_lengths_differ("ACAD_LAYOUTSELFREF"@, "DIMSTYLEDATA"@);
    reveal_strlit("DIMLTEX1");
    lemma_lengths_differ("ACAD_LAYOUTSELFREF"@, "DIMLTEX1"@);
    reveal_strlit("DIMLTEX2");
    lemma_lengths_differ("ACAD_LAYOUTSELFREF"@, "DIMLTEX2"@);
    reveal_strlit("DIMLTYPE");
    lemma_lengths_differ("ACAD_LAYOUTSELFREF"@, "DIMLTYPE"@);
    reveal_strlit("TSTACKALIGN");
    lemma_lengths_differ("ACAD_LAYOUTSELFREF"@, "TSTACKALIGN"@);
    reveal_strlit("TSTACKSIZE");
    lemma_lengths_differ("ACAD_LAYOUTSELFREF"@, "TSTACKSIZE"@);
    reveal_strlit("PUCSBASE");
    lemma_lengths_differ("ACAD_LAYOUTSELFREF"@, "PUCSBASE"@);
    reveal_strlit("PUCSORGBACK");
    lemma_lengths_differ("ACAD_LAYOUTSELFREF"@, "PUCSORGBACK"@);
    reveal_strlit("PUCSORGBOTTOM");
    lemma_lengths_differ("ACAD_LAYOUTSELFREF"@, "PUCSORGBOTTOM"@);
    reveal_strlit("PUCSORGFRONT");
    lemma_lengths_differ("ACAD_LAYOUTSELFREF"@, "PUCSORGFRONT"@);
    reveal_strlit("PUCSORGLEFT");
    lemma_lengths_differ("ACAD_LAYOUTSELFREF"@, "PUCSORGLEFT"@);
    reveal_strlit("PUCSORGRIGHT");
    lemma_lengths_differ("ACAD_LAYOUTSELFREF"@, "PUCSORGRIGHT"@);
    reveal_strlit("PUCSORGTOP");
    lemma_lengths_differ("ACAD_LAYOUTSELFREF"@, "PUCSORGTOP"@);
    reveal_strlit("PUCSORTHOREF");
    lemma_lengths_differ("ACAD_LAYOUTSELFREF"@, "PUCSORTHOREF"@);
    reveal_strlit("PUCSORTHOVIEW");
    lemma_lengths_differ("ACAD_LAYOUTSELFREF"@, "PUCSORTHOVIEW"@);
    reveal_strlit("UCSBASE");
    lemma_lengths_differ("ACAD_LAYOUTSELFREF"@, "UCSBASE"@);
    reveal_strlit("UCSORGBACK");
    lemma_lengths_differ("ACAD_LAYOUTSELFREF"@, "UCSORGBACK"@);
    reveal_strlit("UCSORGBOTTOM");
    lemma_lengths_differ("ACAD_LAYOUTSELFREF"@, "UCSORGBOTTOM"@);
    reveal_strlit("UCSORGFRONT");
    lemma_lengths_differ("ACAD_LAYOUTSELFREF"@, "UCSORGFRONT"@);
    reveal_strlit("UCSORGLEFT");
    lemma_lengths_differ("ACAD_LAYOUTSELFREF"@, "UCSORGLEFT"@);
    reveal_strlit("UCSORGRIGHT");
    lemma_lengths_differ("ACAD_LAYOUTSELFREF"@, "UCSORGRIGHT"@);
    reveal_strlit("UCSORGTOP");
    lemma_lengths_differ("ACAD_LAYOUTSELFREF"@, "UCSORGTOP"@);
    reveal_strlit("UCSORTHOREF");
    lemma_lengths_differ("ACAD_LAYOUTSELFREF"@, "UCSORTHOREF"@);
    reveal_strlit("UCSORTHOVIEW");
    lemma_lengths_differ("ACAD_LAYOUTSELFREF"@, "UCSORTHOVIEW"@);
    law_kind_ignores_case(s, "ACAD_LAYOUTSELFREF"@);
}

proof fn lemma_key_54(s: Seq<char>)
    requires
        eq_ci(s, "LAYOUTDICT"@),
    ensures
        known_kind_of(s) == KnownXRecordKind::PlotData,
{
    reveal_strlit("LAYOUTDICT");
    reveal_strlit("ADSK_XREC_LAYER_ALPHA_OVR");
    lemma_lengths_differ("LAYOUTDICT"@, "ADSK_XREC_LAYER_ALPHA_OVR"@);
    reveal_strlit("ADSK_XREC_LAYER_COLOR_OVR");
    lemma_lengths_differ("LAYOUTDICT"@, "ADSK_XREC_LAYER_COLOR_OVR"@);
    reveal_strlit("ADSK_XREC_LAYER_LINETYPE_OVR");
    lemma_lengths_differ("LAYOUTDICT"@, "ADSK_XREC_LAYER_LINETYPE_OVR"@);
    reveal_strlit("ADSK_XREC_LAYER_LINEWT_OVR");
    lemma_lengths_differ("LAYOUTDICT"@, "ADSK_XREC_LAYER_LINEWT_OVR"@);
    reveal_strlit("ADSK_XREC_LAYER_RECONCILED");
    lemma_lengths_differ("LAYOUTDICT"@, "ADSK_XREC_LAYER_RECONCILED"@);
    reveal_strlit("ACADLAYERSTATEANNOSCALE");
    lemma_lengths_differ("LAYOUTDICT"@, "ACADLAYERSTATEANNOSCALE"@);
    reveal_strlit("ASDK_XREC_ANNOTATION_SCALE_INFO");
    lemma_lengths_differ("LAYOUTDICT"@, "ASDK_XREC_ANNOTATION_SCALE_INFO"@);
    reveal_strlit("ASDK_XREC_ANNO_SCALE_INFO");
    lemma_lengths_differ("LAYOUTDICT"@, "ASDK_XREC_ANNO_SCALE_INFO"@);
    reveal_strlit("ADSK_XREC_VTR_ANNOSCALE_DATA");
    lemma_lengths_differ("LAYOUTDICT"@, "ADSK_XREC_VTR_ANNOSCALE_DATA"@);
    reveal_strlit("ADSK_XREC_SUBDVERTEXTEXCOORDS");
    lemma_lengths_differ("LAYOUTDICT"@, "ADSK_XREC_SUBDVERTEXTEXCOORDS"@);
    reveal_strlit("ACAD_XREC_ROUNDTRIP");
    lemma_lengths_differ("LAYOUTDICT"@, "ACAD_XREC_ROUNDTRIP"@);
    reveal_strlit("ACAD_MTEXT_RT");
    lemma_lengths_differ("LAYOUTDICT"@, "ACAD_MTEXT_RT"@);
    reveal_strlit("ACAD_MTEXT_2008_RT");
    lemma_lengths_differ("LAYOUTDICT"@, "ACAD_MTEXT_2008_RT"@);
    reveal_strlit("ACDBHEADERROUNDTRIPXREC");
    lemma_lengths_differ("LAYOUTDICT"@, "ACDBHEADERROUNDTRIPXREC"@);
    reveal_strlit("AUXHDRRNDTRIPDATA");
    lemma_lengths_differ("LAYOUTDICT"@, "AUXHDRRNDTRIPDATA"@);
    reveal_strlit("ACDB_RECOMPOSE_DATA");
    lemma_lengths_differ("LAYOUTDICT"@, "ACDB_RECOMPOSE_DATA"@);
    reveal_strlit("ACAD_ENHANCEDBLOCKHISTORY");
    lemma_lengths_differ("LAYOUTDICT"@, "ACAD_ENHANCEDBLOCKHISTORY"@);
    reveal_strlit("ASEBLOCKHIERARCHYINDEXRECORD");
    lemma_lengths_differ("LAYOUTDICT"@, "ASEBLOCKHIERARCHYINDEXRECORD"@);
    reveal_strlit("ADSK_XREC_LAYOUTTHUMBNAIL");
    lemma_lengths_differ("LAYOUTDICT"@, "ADSK_XREC_LAYOUTTHUMBNAIL"@);
    reveal_strlit("ADSK_XREC_VTRANIMATIONINFO");
    lemma_lengths_differ("LAYOUTDICT"@, "ADSK_XREC_VTRANIMATIONINFO"@);
    reveal_strlit("ADSK_XREC_VTRTHUMBNAIL");
    lemma_lengths_differ("LAYOUTDICT"@, "ADSK_XREC_VTRTHUMBNAIL"@);
    reveal_strlit("ADSK_XREC_VTRVIEWINFO");
    lemma_lengths_differ("LAYOUTDICT"@, "ADSK_XREC_VTRVIEWINFO"@);
    reveal_strlit("ADSK_XREC_PHOTOMETRICLIGHTINFO");
    lemma_lengths_differ("LAYOUTDICT"@, "ADSK_XREC_PHOTOMETRICLIGHTINFO"@);
    reveal_strlit("LIGHTINGQUALITY");
    lemma_lengths_differ("LAYOUTDICT"@, "LIGHTINGQUALITY"@);
    reveal_strlit("ACAD_LAST_SAVED_VERSION_INFO");
    lemma_lengths_differ("LAYOUTDICT"@, "ACAD_LAST_SAVED_VERSION_INFO"@);
    reveal_strlit("ACAD_CIP_PREVIOUS_PRODUCT_INFO");
    lemma_lengths_differ("LAYOUTDICT"@, "ACAD_CIP_PREVIOUS_PRODUCT_INFO"@);
    reveal_strlit("DWGPROPS");
    lemma_lengths_differ("LAYOUTDICT"@, "DWGPROPS"@);
    reveal_strlit("FINGERPRINTGUID");
    lemma_lengths_differ("LAYOUTDICT"@, "FINGERPRINTGUID"@);
    reveal_strlit("ACADDIM");
    lemma_lengths_differ("LAYOUTDICT"@, "ACADDIM"@);
    reveal_strlit("DIMSTYLEDATA");
    lemma_lengths_differ("LAYOUTDICT"@, "DIMSTYLEDATA"@);
    reveal_strlit("DIMLTEX1");
    lemma_lengths_differ("LAYOUTDICT"@, "DIMLTEX1"@);
    reveal_strlit("DIMLTEX2");
    lemma_lengths_differ("LAYOUTDICT"@, "DIMLTEX2"@);
    reveal_strlit("DIMLTYPE");
    lemma_lengths_differ("LAYOUTDICT"@, "DIMLTYPE"@);
    reveal_strlit("TSTACKALIGN");
    lemma_lengths_differ("LAYOUTDICT"@, "TSTACKALIGN"@);
    reveal_strlit("TSTACKSIZE");
    lemma_differ_at("LAYOUTDICT"@, "TSTACKSIZE"@, 0);
    reveal_strlit("PUCSBASE");
    lemma_lengths_differ("LAYOUTDICT"@, "PUCSBASE"@);
    reveal_strlit("PUCSORGBACK");
    lemma_lengths_differ("LAYOUTDICT"@, "PUCSORGBACK"@);
    reveal_strlit("PUCSORGBOTTOM");
    lemma_lengths_differ("LAYOUTDICT"@, "PUCSORGBOTTOM"@);
    reveal_strlit("PUCSORGFRONT");
    lemma_lengths_differ("LAYOUTDICT"@, "PUCSORGFRONT"@);
    reveal_strlit("PUCSORGLEFT");
    lemma_lengths_differ("LAYOUTDICT"@, "PUCSORGLEFT"@);
    reveal_strlit("PUCSORGRIGHT");
    lemma_lengths_differ("LAYOUTDICT"@, "PUCSORGRIGHT"@);
    reveal_strlit("PUCSORGTOP");
    lemma_differ_at("LAYOUTDICT"@, "PUCSORGTOP"@, 0);
    reveal_strlit("PUCSORTHOREF");
    lemma_lengths_differ("LAYOUTDICT"@, "PUCSORTHOREF"@);
    reveal_strlit("PUCSORTHOVIEW");
    lemma_lengths_differ("LAYOUTDICT"@, "PUCSORTHOVIEW"@);
    reveal_strlit("UCSBASE");
    lemma_lengths_differ("LAYOUTDICT"@, "UCSBASE"@);
    reveal_strlit("UCSORGBACK");
    lemma_differ_at("LAYOUTDICT"@, "UCSORGBACK"@, 0);
    reveal_strlit("UCSORGBOTTOM");
    lemma_lengths_differ("LAYOUTDICT"@, "UCSORGBOTTOM"@);
    reveal_strlit("UCSORGFRONT");
    lemma_lengths_differ("LAYOUTDICT"@, "UCSORGFRONT"@);
    reveal_strlit("UCSORGLEFT");
    lemma_differ_at("LAYOUTDICT"@, "UCSORGLEFT"@, 0);
    reveal_strlit("UCSORGRIGHT");
    lemma_lengths_differ("LAYOUTDICT"@, "UCSORGRIGHT"@);
    reveal_strlit("UCSORGTOP");
    lemma_lengths_differ("LAYOUTDICT"@, "UCSORGTOP"@);
    reveal_strlit("UCSORTHOREF");
    lemma_lengths_differ("LAYOUTDICT"@, "UCSORTHOREF"@);
    reveal_strlit("UCSORTHOVIEW");
    lemma_lengths_differ("LAYOUTDICT"@, "UCSORTHOVIEW"@);
    reveal_strlit("ACAD_LAYOUTSELFREF");
    lemma_lengths_differ("LAYOUTDICT"@, "ACAD_LAYOUTSELFREF"@);
    law_kind_ignores_case(s, "LAYOUTDICT"@);
}

proof fn lemma_key_55(s: Seq<char>)
    requires
        eq_ci(s, "PLOTSETDICT"@),
    ensures
        known_kind_of(s) == KnownXRecordKind::PlotData,
{
    reveal_strlit("PLOTSETDICT");
    reveal_strlit("ADSK_XREC_LAYER_ALPHA_OVR");
    lemma_lengths_differ("PLOTSETDICT"@, "ADSK_XREC_LAYER_ALPHA_OVR"@);
    reveal_strlit("ADSK_XREC_LAYER_COLOR_OVR");
    lemma_lengths_differ("PLOTSETDICT"@, "ADSK_XREC_LAYER_COLOR_OVR"@);
    reveal_strlit("ADSK_XREC_LAYER_LINETYPE_OVR");
    lemma_lengths_differ("PLOTSETDICT"@, "ADSK_XREC_LAYER_LINETYPE_OVR"@);
    reveal_strlit("ADSK_XREC_LAYER_LINEWT_OVR");
    lemma_lengths_differ("PLOTSETDICT"@, "ADSK_XREC_LAYER_LINEWT_OVR"@);
    reveal_strlit("ADSK_XREC_LAYER_RECONCILED");
    lemma_lengths_differ("PLOTSETDICT"@, "ADSK_XREC_LAYER_RECONCILED"@);
    reveal_strlit("ACADLAYERSTATEANNOSCALE");
    lemma_lengths_differ("PLOTSETDICT"@, "ACADLAYERSTATEANNOSCALE"@);
    reveal_strlit("ASDK_XREC_ANNOTATION_SCALE_INFO");
    lemma_lengths_differ("PLOTSETDICT"@, "ASDK_XREC_ANNOTATION_SCALE_INFO"@);
    reveal_strlit("ASDK_XREC_ANNO_SCALE_INFO");
    lemma_lengths_differ("PLOTSETDICT"@, "ASDK_XREC_ANNO_SCALE_INFO"@);
    reveal_strlit("ADSK_XREC_VTR_ANNOSCALE_DATA");
    lemma_lengths_differ("PLOTSETDICT"@, "ADSK_XREC_VTR_ANNOSCALE_DATA"@);
    reveal_strlit("ADSK_XREC_SUBDVERTEXTEXCOORDS");
    lemma_lengths_differ("PLOTSETDICT"@, "ADSK_XREC_SUBDVERTEXTEXCOORDS"@);
    reveal_strlit("ACAD_XREC_ROUNDTRIP");
    lemma_lengths_differ("PLOTSETDICT"@, "ACAD_XREC_ROUNDTRIP"@);
    reveal_strlit("ACAD_MTEXT_RT");
    lemma_lengths_differ("PLOTSETDICT"@, "ACAD_MTEXT_RT"@);
    reveal_strlit("ACAD_MTEXT_2008_RT");
    lemma_lengths_differ("PLOTSETDICT"@, "ACAD_MTEXT_2008_RT"@);
    reveal_strlit("ACDBHEADERROUNDTRIPXREC");
    lemma_lengths_differ("PLOTSETDICT"@, "ACDBHEADERROUNDTRIPXREC"@);
    reveal_strlit("AUXHDRRNDTRIPDATA");
    lemma_lengths_differ("PLOTSETDICT"@, "AUXHDRRNDTRIPDATA"@);
    reveal_strlit("ACDB_RECOMPOSE_DATA");
    lemma_lengths_differ("PLOTSETDICT"@, "ACDB_RECOMPOSE_DATA"@);
    reveal_strlit("ACAD_ENHANCEDBLOCKHISTORY");
    lemma_lengths_differ("PLOTSETDICT"@, "ACAD_ENHANCEDBLOCKHISTORY"@);
    reveal_strlit("ASEBLOCKHIERARCHYINDEXRECORD");
    lemma_lengths_differ("PLOTSETDICT"@, "ASEBLOCKHIERARCHYINDEXRECORD"@);
    reveal_strlit("ADSK_XREC_LAYOUTTHUMBNAIL");
    lemma_lengths_differ("PLOTSETDICT"@, "ADSK_XREC_LAYOUTTHUMBNAIL"@);
    reveal_strlit("ADSK_XREC_VTRANIMATIONINFO");
    lemma_lengths_differ("PLOTSETDICT"@, "ADSK_XREC_VTRANIMATIONINFO"@);
    reveal_strlit("ADSK_XREC_VTRTHUMBNAIL");
    lemma_lengths_differ("PLOTSETDICT"@, "ADSK_XREC_VTRTHUMBNAIL"@);
    reveal_strlit("ADSK_XREC_VTRVIEWINFO");
    lemma_lengths_differ("PLOTSETDICT"@, "ADSK_XREC_VTRVIEWINFO"@);
    reveal_strlit("ADSK_XREC_PHOTOMETRICLIGHTINFO");
    lemma_lengths_differ("PLOTSETDICT"@, "ADSK_XREC_PHOTOMETRICLIGHTINFO"@);
    reveal_strlit("LIGHTINGQUALITY");
    lemma_lengths_differ("PLOTSETDICT"@, "LIGHTINGQUALITY"@);
    reveal_strlit("ACAD_LAST_SAVED_VERSION_INFO");
    lemma_lengths_differ("PLOTSETDICT"@, "ACAD_LAST_SAVED_VERSION_INFO"@);
    reveal_strlit("ACAD_CIP_PREVIOUS_PRODUCT_INFO");
    lemma_lengths_differ("PLOTSETDICT"@, "ACAD_CIP_PREVIOUS_PRODUCT_INFO"@);
    reveal_strlit("DWGPROPS");
    lemma_lengths_differ("PLOTSETDICT"@, "DWGPROPS"@);
    reveal_strlit("FINGERPRINTGUID");
    lemma_lengths_differ("PLOTSETDICT"@, "FINGERPRINTGUID"@);
    reveal_strlit("ACADDIM");
    lemma_lengths_differ("PLOTSETDICT"@, "ACADDIM"@);
    reveal_strlit("DIMSTYLEDATA");
    lemma_lengths_differ("PLOTSETDICT"@, "DIMSTYLEDATA"@);
    reveal_strlit("DIMLTEX1");
    lemma_lengths_differ("PLOTSETDICT"@, "DIMLTEX1"@);
    reveal_strlit("DIMLTEX2");
    lemma_lengths_differ("PLOTSETDICT"@, "DIMLTEX2"@);
    reveal_strlit("DIMLTYPE");
    lemma_lengths_differ("PLOTSETDICT"@, "DIMLTYPE"@);
    reveal_strlit("TSTACKALIGN");
    lemma_differ_at("PLOTSETDICT"@, "TSTACKALIGN"@, 0);
    reveal_strlit("TSTACKSIZE");
    lemma_lengths_differ("PLOTSETDICT"@, "TSTACKSIZE"@);
    reveal_strlit("PUCSBASE");
    lemma_lengths_differ("PLOTSETDICT"@, "PUCSBASE"@);
    reveal_strlit("PUCSORGBACK");
    lemma_differ_at("PLOTSETDICT"@, "PUCSORGBACK"@, 1);
    reveal_strlit("PUCSORGBOTTOM");
    lemma_lengths_differ("PLOTSETDICT"@, "PUCSORGBOTTOM"@);
    reveal_strlit("PUCSORGFRONT");
    lemma_lengths_differ("PLOTSETDICT"@, "PUCSORGFRONT"@);
    reveal_strlit("PUCSORGLEFT");
    lemma_differ_at("PLOTSETDICT"@, "PUCSORGLEFT"@, 1);
    reveal_strlit("PUCSORGRIGHT");
    lemma_lengths_differ("PLOTSETDICT"@, "PUCSORGRIGHT"@);
    reveal_strlit("PUCSORGTOP");
    lemma_lengths_differ("PLOTSETDICT"@, "PUCSORGTOP"@);
    reveal_strlit("PUCSORTHOREF");
    lemma_lengths_differ("PLOTSETDICT"@, "PUCSORTHOREF"@);
    reveal_strlit("PUCSORTHOVIEW");
    lemma_lengths_differ("PLOTSETDICT"@, "PUCSORTHOVIEW"@);
    reveal_strlit("UCSBASE");
    lemma_lengths_differ("PLOTSETDICT"@, "UCSBASE"@);
    reveal_strlit("UCSORGBACK");
    lemma_lengths_differ("PLOTSETDICT"@, "UCSORGBACK"@);
    reveal_strlit("UCSORGBOTTOM");
    lemma_lengths_differ("PLOTSETDICT"@, "UCSORGBOTTOM"@);
    reveal_strlit("UCSORGFRONT");
    lemma_differ_at("PLOTSETDICT"@, "UCSORGFRONT"@, 0);
    reveal_strlit("UCSORGLEFT");
    lemma_lengths_differ("PLOTSETDICT"@, "UCSORGLEFT"@);
    reveal_strlit("UCSORGRIGHT");
    lemma_differ_at("PLOTSETDICT"@, "UCSORGRIGHT"@, 0);
    reveal_strlit("UCSORGTOP");
    lemma_lengths_differ("PLOTSETDICT"@, "UCSORGTOP"@);
    reveal_strlit("UCSORTHOREF");
    lemma_differ_at("PLOTSETDICT"@, "UCSORTHOREF"@, 0);
    reveal_strlit("UCSORTHOVIEW");
    lemma_lengths_differ("PLOTSETDICT"@, "UCSORTHOVIEW"@);
    reveal_strlit("ACAD_LAYOUTSELFREF");
    lemma_lengths_differ("PLOTSETDICT"@, "ACAD_LAYOUTSELFREF"@);
    reveal_strlit("LAYOUTDICT");
    lemma_lengths_differ("PLOTSETDICT"@, "LAYOUTDICT"@);
    law_kind_ignores_case(s, "PLOTSETDICT"@);
}

proof fn lemma_key_56(s: Seq<char>)
    requires
        eq_ci(s, "PLOTSTYLNAMDICT"@),
    ensures
        known_kind_of(s) == KnownXRecordKind::PlotData,
{
    reveal_strlit("PLOTSTYLNAMDICT");
    reveal_strlit("ADSK_XREC_LAYER_ALPHA_OVR");
    lemma_lengths_differ("PLOTSTYLNAMDICT"@, "ADSK_XREC_LAYER_ALPHA_OVR"@);
    reveal_strlit("ADSK_XREC_LAYER_COLOR_OVR");
    lemma_lengths_differ("PLOTSTYLNAMDICT"@, "ADSK_XREC_LAYER_COLOR_OVR"@);
    reveal_strlit("ADSK_XREC_LAYER_LINETYPE_OVR");
    lemma_lengths_differ("PLOTSTYLNAMDICT"@, "ADSK_XREC_LAYER_LINETYPE_OVR"@);
    reveal_strlit("ADSK_XREC_LAYER_LINEWT_OVR");
    lemma_lengths_differ("PLOTSTYLNAMDICT"@, "ADSK_XREC_LAYER_LINEWT_OVR"@);
    reveal_strlit("ADSK_XREC_LAYER_RECONCILED");
    lemma_lengths_differ("PLOTSTYLNAMDICT"@, "ADSK_XREC_LAYER_RECONCILED"@);
    reveal_strlit("ACADLAYERSTATEANNOSCALE");
    lemma_lengths_differ("PLOTSTYLNAMDICT"@, "ACADLAYERSTATEANNOSCALE"@);
    reveal_strlit("ASDK_XREC_ANNOTATION_SCALE_INFO");
    lemma_lengths_differ("PLOTSTYLNAMDICT"@, "ASDK_XREC_ANNOTATION_SCALE_INFO"@);
    reveal_strlit("ASDK_XREC_ANNO_SCALE_INFO");
    lemma_lengths_differ("PLOTSTYLNAMDICT"@, "ASDK_XREC_ANNO_SCALE_INFO"@);
    reveal_strlit("ADSK_XREC_VTR_ANNOSCALE_DATA");
    lemma_lengths_differ("PLOTSTYLNAMDICT"@, "ADSK_XREC_VTR_ANNOSCALE_DATA"@);
    reveal_strlit("ADSK_XREC_SUBDVERTEXTEXCOORDS");
    lemma_lengths_differ("PLOTSTYLNAMDICT"@, "ADSK_XREC_SUBDVERTEXTEXCOORDS"@);
    reveal_strlit("ACAD_XREC_ROUNDTRIP");
    lemma_lengths_differ("PLOTSTYLNAMDICT"@, "ACAD_XREC_ROUNDTRIP"@);
    reveal_strlit("ACAD_MTEXT_RT");
    lemma_lengths_differ("PLOTSTYLNAMDICT"@, "ACAD_MTEXT_RT"@);
    reveal_strlit("ACAD_MTEXT_2008_RT");
    lemma_lengths_differ("PLOTSTYLNAMDICT"@, "ACAD_MTEXT_2008_RT"@);
    reveal_strlit("ACDBHEADERROUNDTRIPXREC");
    lemma_lengths_differ("PLOTSTYLNAMDICT"@, "ACDBHEADERROUNDTRIPXREC"@);
    reveal_strlit("AUXHDRRNDTRIPDATA");
    lemma_lengths_differ("PLOTSTYLNAMDICT"@, "AUXHDRRNDTRIPDATA"@);
    reveal_strlit("ACDB_RECOMPOSE_DATA");
    lemma_lengths_differ("PLOTSTYLNAMDICT"@, "ACDB_RECOMPOSE_DATA"@);
    reveal_strlit("ACAD_ENHANCEDBLOCKHISTORY");
    lemma_lengths_differ("PLOTSTYLNAMDICT"@, "ACAD_ENHANCEDBLOCKHISTORY"@);
    reveal_strlit("ASEBLOCKHIERARCHYINDEXRECORD");
    lemma_lengths_differ("PLOTSTYLNAMDICT"@, "ASEBLOCKHIERARCHYINDEXRECORD"@);
    reveal_strlit("ADSK_XREC_LAYOUTTHUMBNAIL");
    lemma_lengths_differ("PLOTSTYLNAMDICT"@, "ADSK_XREC_LAYOUTTHUMBNAIL"@);
    reveal_strlit("ADSK_XREC_VTRANIMATIONINFO");
    lemma_lengths_differ("PLOTSTYLNAMDICT"@, "ADSK_XREC_VTRANIMATIONINFO"@);
    reveal_strlit("ADSK_XREC_VTRTHUMBNAIL");
    lemma_lengths_differ("PLOTSTYLNAMDICT"@, "ADSK_XREC_VTRTHUMBNAIL"@);
    reveal_strlit("ADSK_XREC_VTRVIEWINFO");
    lemma_lengths_differ("PLOTSTYLNAMDICT"@, "ADSK_XREC_VTRVIEWINFO"@);
    reveal_strlit("ADSK_XREC_PHOTOMETRICLIGHTINFO");
    lemma_lengths_differ("PLOTSTYLNAMDICT"@, "ADSK_XREC_PHOTOMETRICLIGHTINFO"@);
    reveal_strlit("LIGHTINGQUALITY");
    lemma_differ_at("PLOTSTYLNAMDICT"@, "LIGHTINGQUALITY"@, 0);
    reveal_strlit("ACAD_LAST_SAVED_VERSION_INFO");
    lemma_lengths_differ("PLOTSTYLNAMDICT"@, "ACAD_LAST_SAVED_VERSION_INFO"@);
    reveal_strlit("ACAD_CIP_PREVIOUS_PRODUCT_INFO");
    lemma_lengths_differ("PLOTSTYLNAMDICT"@, "ACAD_CIP_PREVIOUS_PRODUCT_INFO"@);
    reveal_strlit("DWGPROPS");
    lemma_lengths_differ("PLOTSTYLNAMDICT"@, "DWGPROPS"@);
    reveal_strlit("FINGERPRINTGUID");
    lemma_differ_at("PLOTSTYLNAMDICT"@, "FINGERPRINTGUID"@, 0);
    reveal_strlit("ACADDIM");
    lemma_lengths_differ("PLOTSTYLNAMDICT"@, "ACADDIM"@);
    reveal_strlit("DIMSTYLEDATA");
    lemma_lengths_differ("PLOTSTYLNAMDICT"@, "DIMSTYLEDATA"@);
    reveal_strlit("DIMLTEX1");
    lemma_lengths_differ("PLOTSTYLNAMDICT"@, "DIMLTEX1"@);
    reveal_strlit("DIMLTEX2");
    lemma_lengths_differ("PLOTSTYLNAMDICT"@, "DIMLTEX2"@);
    reveal_strlit("DIMLTYPE");
    lemma_lengths_differ("PLOTSTYLNAMDICT"@, "DIMLTYPE"@);
    reveal_strlit("TSTACKALIGN");
    lemma_lengths_differ("PLOTSTYLNAMDICT"@, "TSTACKALIGN"@);
    reveal_strlit("TSTACKSIZE");
    lemma_lengths_differ("PLOTSTYLNAMDICT"@, "TSTACKSIZE"@);
    reveal_strlit("PUCSBASE");
    lemma_lengths_differ("PLOTSTYLNAMDICT"@, "PUCSBASE"@);
    reveal_strlit("PUCSORGBACK");
    lemma_lengths_differ("PLOTSTYLNAMDICT"@, "PUCSORGBACK"@);
    reveal_strlit("PUCSORGBOTTOM");
    lemma_lengths_differ("PLOTSTYLNAMDICT"@, "PUCSORGBOTTOM"@);
    reveal_strlit("PUCSORGFRONT");
    lemma_lengths_differ("PLOTSTYLNAMDICT"@, "PUCSORGFRONT"@);
    reveal_strlit("PUCSORGLEFT");
    lemma_lengths_differ("PLOTSTYLNAMDICT"@, "PUCSORGLEFT"@);
    reveal_strlit("PUCSORGRIGHT");
    lemma_lengths_differ("PLOTSTYLNAMDICT"@, "PUCSORGRIGHT"@);
    reveal_strlit("PUCSORGTOP");
    lemma_lengths_differ("PLOTSTYLNAMDICT"@, "PUCSORGTOP"@);
    reveal_strlit("PUCSORTHOREF");
    lemma_lengths_differ("PLOTSTYLNAMDICT"@, "PUCSORTHOREF"@);
    reveal_strlit("PUCSORTHOVIEW");
    lemma_lengths_differ("PLOTSTYLNAMDICT"@, "PUCSORTHOVIEW"@);
    reveal_strlit("UCSBASE");
    lemma_lengths_differ("PLOTSTYLNAMDICT"@, "UCSBASE"@);
    reveal_strlit("UCSORGBACK");
    lemma_lengths_differ("PLOTSTYLNAMDICT"@, "UCSORGBACK"@);
    reveal_strlit("UCSORGBOTTOM");
    lemma_lengths_differ("PLOTSTYLNAMDICT"@, "UCSORGBOTTOM"@);
    reveal_strlit("UCSORGFRONT");
    lemma_lengths_differ("PLOTSTYLNAMDICT"@, "UCSORGFRONT"@);
    reveal_strlit("UCSORGLEFT");
    lemma_lengths_differ("PLOTSTYLNAMDICT"@, "UCSORGLEFT"@);
    reveal_strlit("UCSORGRIGHT");
    lemma_lengths_differ("PLOTSTYLNAMDICT"@, "UCSORGRIGHT"@);
    reveal_strlit("UCSORGTOP");
    lemma_lengths_differ("PLOTSTYLNAMDICT"@, "UCSORGTOP"@);
    reveal_strlit("UCSORTHOREF");
    lemma_lengths_differ("PLOTSTYLNAMDICT"@, "UCSORTHOREF"@);
    reveal_strlit("UCSORTHOVIEW");
    lemma_lengths_differ("PLOTSTYLNAMDICT"@, "UCSORTHOVIEW"@);
    reveal_strlit("ACAD_LAYOUTSELFREF");
    lemma_lengths_differ("PLOTSTYLNAMDICT"@, "ACAD_LAYOUTSELFREF"@);
    reveal_strlit("LAYOUTDICT");
    lemma_lengths_differ("PLOTSTYLNAMDICT"@, "LAYOUTDICT"@);
    reveal_strlit("PLOTSETDICT");
    lemma_lengths_differ("PLOTSTYLNAMDICT"@, "PLOTSETDICT"@);
    law_kind_ignores_case(s, "PLOTSTYLNAMDICT"@);
}

proof fn lemma_key_57(s: Seq<char>)
    requires
        eq_ci(s, "PSVPSCALE"@),
    ensures
        known_kind_of(s) == KnownXRecordKind::PlotData,
{
    reveal_strlit("PSVPSCALE");
    reveal_strlit("ADSK_XREC_LAYER_ALPHA_OVR");
    lemma_lengths_differ("PSVPSCALE"@, "ADSK_XREC_LAYER_ALPHA_OVR"@);
    reveal_strlit("ADSK_XREC_LAYER_COLOR_OVR");
    lemma_lengths_differ("PSVPSCALE"@, "ADSK_XREC_LAYER_COLOR_OVR"@);
    reveal_strlit("ADSK_XREC_LAYER_LINETYPE_OVR");
    lemma_lengths_differ("PSVPSCALE"@, "ADSK_XREC_LAYER_LINETYPE_OVR"@);
    reveal_strlit("ADSK_XREC_LAYER_LINEWT_OVR");
    lemma_lengths_differ("PSVPSCALE"@, "ADSK_XREC_LAYER_LINEWT_OVR"@);
    reveal_strlit("ADSK_XREC_LAYER_RECONCILED");
    lemma_lengths_differ("PSVPSCALE"@, "ADSK_XREC_LAYER_RECONCILED"@);
    reveal_strlit("ACADLAYERSTATEANNOSCALE");
    lemma_lengths_differ("PSVPSCALE"@, "ACADLAYERSTATEANNOSCALE"@);
    reveal_strlit("ASDK_XREC_ANNOTATION_SCALE_INFO");
    lemma_lengths_differ("PSVPSCALE"@, "ASDK_XREC_ANNOTATION_SCALE_INFO"@);
    reveal_strlit("ASDK_XREC_ANNO_SCALE_INFO");
    lemma_lengths_differ("PSVPSCALE"@, "ASDK_XREC_ANNO_SCALE_INFO"@);
    reveal_strlit("ADSK_XREC_VTR_ANNOSCALE_DATA");
    lemma_lengths_differ("PSVPSCALE"@, "ADSK_XREC_VTR_ANNOSCALE_DATA"@);
    reveal_strlit("ADSK_XREC_SUBDVERTEXTEXCOORDS");
    lemma_lengths_differ("PSVPSCALE"@, "ADSK_XREC_SUBDVERTEXTEXCOORDS"@);
    reveal_strlit("ACAD_XREC_ROUNDTRIP");
    lemma_lengths_differ("PSVPSCALE"@, "ACAD_XREC_ROUNDTRIP"@);
    reveal_strlit("ACAD_MTEXT_RT");
    lemma_lengths_differ("PSVPSCALE"@, "ACAD_MTEXT_RT"@);
    reveal_strlit("ACAD_MTEXT_2008_RT");
    lemma_lengths_differ("PSVPSCALE"@, "ACAD_MTEXT_2008_RT"@);
    reveal_strlit("ACDBHEADERROUNDTRIPXREC");
    lemma_lengths_differ("PSVPSCALE"@, "ACDBHEADERROUNDTRIPXREC"@);
    reveal_strlit("AUXHDRRNDTRIPDATA");
    lemma_lengths_differ("PSVPSCALE"@, "AUXHDRRNDTRIPDATA"@);
    reveal_strlit("ACDB_RECOMPOSE_DATA");
    lemma_lengths_differ("PSVPSCALE"@, "ACDB_RECOMPOSE_DATA"@);
    reveal_strlit("ACAD_ENHANCEDBLOCKHISTORY");
    lemma_lengths_differ("PSVPSCALE"@, "ACAD_ENHANCEDBLOCKHISTORY"@);
    reveal_strlit("ASEBLOCKHIERARCHYINDEXRECORD");
    lemma_lengths_differ("PSVPSCALE"@, "ASEBLOCKHIERARCHYINDEXRECORD"@);
    reveal_strlit("ADSK_XREC_LAYOUTTHUMBNAIL");
    lemma_lengths_differ("PSVPSCALE"@, "ADSK_XREC_LAYOUTTHUMBNAIL"@);
    reveal_strlit("ADSK_XREC_VTRANIMATIONINFO");
    lemma_lengths_differ("PSVPSCALE"@, "ADSK_XREC_VTRANIMATIONINFO"@);
    reveal_strlit("ADSK_XREC_VTRTHUMBNAIL");
    lemma_lengths_differ("PSVPSCALE"@, "ADSK_XREC_VTRTHUMBNAIL"@);
    reveal_strlit("ADSK_XREC_VTRVIEWINFO");
    lemma_lengths_differ("PSVPSCALE"@, "ADSK_XREC_VTRVIEWINFO"@);
    reveal_strlit("ADSK_XREC_PHOTOMETRICLIGHTINFO");
    lemma_lengths_differ("PSVPSCALE"@, "ADSK_XREC_PHOTOMETRICLIGHTINFO"@);
    reveal_strlit("LIGHTINGQUALITY");
    lemma_lengths_differ("PSVPSCALE"@, "LIGHTINGQUALITY"@);
    reveal_strlit("ACAD_LAST_SAVED_VERSION_INFO");
    lemma_lengths_differ("PSVPSCALE"@, "ACAD_LAST_SAVED_VERSION_INFO"@);
    reveal_strlit("ACAD_CIP_PREVIOUS_PRODUCT_INFO");
    lemma_lengths_differ("PSVPSCALE"@, "ACAD_CIP_PREVIOUS_PRODUCT_INFO"@);
    reveal_strlit("DWGPROPS");
    lemma_lengths_differ("PSVPSCALE"@, "DWGPROPS"@);
    reveal_strlit("FINGERPRINTGUID");
    lemma_lengths_differ("PSVPSCALE"@, "FINGERPRINTGUID"@);
    reveal_strlit("ACADDIM");
    lemma_lengths_differ("PSVPSCALE"@, "ACADDIM"@);
    reveal_strlit("DIMSTYLEDATA");
    lemma_lengths_differ("PSVPSCALE"@, "DIMSTYLEDATA"@);
    reveal_strlit("DIMLTEX1");
    lemma_lengths_differ("PSVPSCALE"@, "DIMLTEX1"@);
    reveal_strlit("DIMLTEX2");
    lemma_lengths_differ("PSVPSCALE"@, "DIMLTEX2"@);
    reveal_strlit("DIMLTYPE");
    lemma_lengths_differ("PSVPSCALE"@, "DIMLTYPE"@);
    reveal_strlit("TSTACKALIGN");
    lemma_lengths_differ("PSVPSCALE"@, "TSTACKALIGN"@);
    reveal_strlit("TSTACKSIZE");
    lemma_lengths_differ("PSVPSCALE"@, "TSTACKSIZE"@);
    reveal_strlit("PUCSBASE");
    lemma_lengths_differ("PSVPSCALE"@, "PUCSBASE"@);
    reveal_strlit("PUCSORGBACK");
    lemma_lengths_differ("PSVPSCALE"@, "PUCSORGBACK"@);
    reveal_strlit("PUCSORGBOTTOM");
    lemma_lengths_differ("PSVPSCALE"@, "PUCSORGBOTTOM"@);
    reveal_strlit("PUCSORGFRONT");
    lemma_lengths_differ("PSVPSCALE"@, "PUCSORGFRONT"@);
    reveal_strlit("PUCSORGLEFT");
    lemma_lengths_differ("PSVPSCALE"@, "PUCSORGLEFT"@);
    reveal_strlit("PUCSORGRIGHT");
    lemma_lengths_differ("PSVPSCALE"@, "PUCSORGRIGHT"@);
    reveal_strlit("PUCSORGTOP");
    lemma_lengths_differ("PSVPSCALE"@, "PUCSORGTOP"@);
    reveal_strlit("PUCSORTHOREF");
    lemma_lengths_differ("PSVPSCALE"@, "PUCSORTHOREF"@);
    reveal_strlit("PUCSORTHOVIEW");
    lemma_lengths_differ("PSVPSCALE"@, "PUCSORTHOVIEW"@);
    reveal_strlit("UCSBASE");
    lemma_lengths_differ("PSVPSCALE"@, "UCSBASE"@);
    reveal_strlit("UCSORGBACK");
    lemma_lengths_differ("PSVPSCALE"@, "UCSORGBACK"@);
    reveal_strlit("UCSORGBOTTOM");
    lemma_lengths_differ("PSVPSCALE"@, "UCSORGBOTTOM"@);
    reveal_strlit("UCSORGFRONT");
    lemma_lengths_differ("PSVPSCALE"@, "UCSORGFRONT"@);
    reveal_strlit("UCSORGLEFT");
    lemma_lengths_differ("PSVPSCALE"@, "UCSORGLEFT"@);
    reveal_strlit("UCSORGRIGHT");
    lemma_lengths_differ("PSVPSCALE"@, "UCSORGRIGHT"@);
    reveal_strlit("UCSORGTOP");
    lemma_differ_at("PSVPSCALE"@, "UCSORGTOP"@, 0);
    reveal_strlit("UCSORTHOREF");
    lemma_lengths_differ("PSVPSCALE"@, "UCSORTHOREF"@);
    reveal_strlit("UCSORTHOVIEW");
    lemma_lengths_differ("PSVPSCALE"@, "UCSORTHOVIEW"@);
    reveal_strlit("ACAD_LAYOUTSELFREF");
    lemma_lengths_differ("PSVPSCALE"@, "ACAD_LAYOUTSELFREF"@);
    reveal_strlit("LAYOUTDICT");
    lemma_lengths_differ("PSVPSCALE"@, "LAYOUTDICT"@);
    reveal_strlit("PLOTSETDICT");
    lemma_lengths_differ("PSVPSCALE"@, "PLOTSETDICT"@);
    reveal_strlit("PLOTSTYLNAMDICT");
    lemma_lengths_differ("PSVPSCALE"@, "PLOTSTYLNAMDICT"@);
    law_kind_ignores_case(s, "PSVPSCALE"@);
}

proof fn lemma_key_58(s: Seq<char>)
    requires
        eq_ci(s, "STYLESHEET"@),
    ensures
        known_kind_of(s) == KnownXRecordKind::PlotData,
{
    reveal_strlit("STYLESHEET");
    reveal_strlit("ADSK_XREC_LAYER_ALPHA_OVR");
    lemma_lengths_differ("STYLESHEET"@, "ADSK_XREC_LAYER_ALPHA_OVR"@);
    reveal_strlit("ADSK_XREC_LAYER_COLOR_OVR");
    lemma_lengths_differ("STYLESHEET"@, "ADSK_XREC_LAYER_COLOR_OVR"@);
    reveal_strlit("ADSK_XREC_LAYER_LINETYPE_OVR");
    lemma_lengths_differ("STYLESHEET"@, "ADSK_XREC_LAYER_LINETYPE_OVR"@);
    reveal_strlit("ADSK_XREC_LAYER_LINEWT_OVR");
    lemma_lengths_differ("STYLESHEET"@, "ADSK_XREC_LAYER_LINEWT_OVR"@);
    reveal_strlit("ADSK_XREC_LAYER_RECONCILED");
    lemma_lengths_differ("STYLESHEET"@, "ADSK_XREC_LAYER_RECONCILED"@);
    reveal_strlit("ACADLAYERSTATEANNOSCALE");
    lemma_lengths_differ("STYLESHEET"@, "ACADLAYERSTATEANNOSCALE"@);
    reveal_strlit("ASDK_XREC_ANNOTATION_SCALE_INFO");
    lemma_lengths_differ("STYLESHEET"@, "ASDK_XREC_ANNOTATION_SCALE_INFO"@);
    reveal_strlit("ASDK_XREC_ANNO_SCALE_INFO");
    lemma_lengths_differ("STYLESHEET"@, "ASDK_XREC_ANNO_SCALE_INFO"@);
    reveal_strlit("ADSK_XREC_VTR_ANNOSCALE_DATA");
    lemma_lengths_differ("STYLESHEET"@, "ADSK_XREC_VTR_ANNOSCALE_DATA"@);
    reveal_strlit("ADSK_XREC_SUBDVERTEXTEXCOORDS");
    lemma_lengths_differ("STYLESHEET"@, "ADSK_XREC_SUBDVERTEXTEXCOORDS"@);
    reveal_strlit("ACAD_XREC_ROUNDTRIP");
    lemma_lengths_differ("STYLESHEET"@, "ACAD_XREC_ROUNDTRIP"@);
    reveal_strlit("ACAD_MTEXT_RT");
    lemma_lengths_differ("STYLESHEET"@, "ACAD_MTEXT_RT"@);
    reveal_strlit("ACAD_MTEXT_2008_RT");
    lemma_lengths_differ("STYLESHEET"@, "ACAD_MTEXT_2008_RT"@);
    reveal_strlit("ACDBHEADERROUNDTRIPXREC");
    lemma_lengths_differ("STYLESHEET"@, "ACDBHEADERROUNDTRIPXREC"@);
    reveal_strlit("AUXHDRRNDTRIPDATA");
    lemma_lengths_differ("STYLESHEET"@, "AUXHDRRNDTRIPDATA"@);
    reveal_strlit("ACDB_RECOMPOSE_DATA");
    lemma_lengths_differ("STYLESHEET"@, "ACDB_RECOMPOSE_DATA"@);
    reveal_strlit("ACAD_ENHANCEDBLOCKHISTORY");
    lemma_lengths_differ("STYLESHEET"@, "ACAD_ENHANCEDBLOCKHISTORY"@);
    reveal_strlit("ASEBLOCKHIERARCHYINDEXRECORD");
    lemma_lengths_differ("STYLESHEET"@, "ASEBLOCKHIERARCHYINDEXRECORD"@);
    reveal_strlit("ADSK_XREC_LAYOUTTHUMBNAIL");
    lemma_lengths_differ("STYLESHEET"@, "ADSK_XREC_LAYOUTTHUMBNAIL"@);
    reveal_strlit("ADSK_XREC_VTRANIMATIONINFO");
    lemma_lengths_differ("STYLESHEET"@, "ADSK_XREC_VTRANIMATIONINFO"@);
    reveal_strlit("ADSK_XREC_VTRTHUMBNAIL");
    lemma_lengths_differ("STYLESHEET"@, "ADSK_XREC_VTRTHUMBNAIL"@);
    reveal_strlit("ADSK_XREC_VTRVIEWINFO");
    lemma_lengths_differ("STYLESHEET"@, "ADSK_XREC_VTRVIEWINFO"@);
    reveal_strlit("ADSK_XREC_PHOTOMETRICLIGHTINFO");
    lemma_lengths_differ("STYLESHEET"@, "ADSK_XREC_PHOTOMETRICLIGHTINFO"@);
    reveal_strlit("LIGHTINGQUALITY");
    lemma_lengths_differ("STYLESHEET"@, "LIGHTINGQUALITY"@);
    reveal_strlit("ACAD_LAST_SAVED_VERSION_INFO");
    lemma_lengths_differ("STYLESHEET"@, "ACAD_LAST_SAVED_VERSION_INFO"@);
    reveal_strlit("ACAD_CIP_PREVIOUS_PRODUCT_INFO");
    lemma_lengths_differ("STYLESHEET"@, "ACAD_CIP_PREVIOUS_PRODUCT_INFO"@);
    reveal_strlit("DWGPROPS");
    lemma_lengths_differ("STYLESHEET"@, "DWGPROPS"@);
    reveal_strlit("FINGERPRINTGUID");
    lemma_lengths_differ("STYLESHEET"@, "FINGERPRINTGUID"@);
    reveal_strlit("ACADDIM");
    lemma_lengths_differ("STYLESHEET"@, "ACADDIM"@);
    reveal_strlit("DIMSTYLEDATA");
    lemma_lengths_differ("STYLESHEET"@, "DIMSTYLEDATA"@);
    reveal_strlit("DIMLTEX1");
    lemma_lengths_differ("STYLESHEET"@, "DIMLTEX1"@);
    reveal_strlit("DIMLTEX2");
    lemma_lengths_differ("STYLESHEET"@, "DIMLTEX2"@);
    reveal_strlit("DIMLTYPE");
    lemma_lengths_differ("STYLESHEET"@, "DIMLTYPE"@);
    reveal_strlit("TSTACKALIGN");
    lemma_lengths_differ("STYLESHEET"@, "TSTACKALIGN"@);
    reveal_strlit("TSTACKSIZE");
    lemma_differ_at("STYLESHEET"@, "TSTACKSIZE"@, 0);
    reveal_strlit("PUCSBASE");
    lemma_lengths_differ("STYLESHEET"@, "PUCSBASE"@);
    reveal_strlit("PUCSORGBACK");
    lemma_lengths_differ("STYLESHEET"@, "PUCSORGBACK"@);
    reveal_strlit("PUCSORGBOTTOM");
    lemma_lengths_differ("STYLESHEET"@, "PUCSORGBOTTOM"@);
    reveal_strlit("PUCSORGFRONT");
    lemma_lengths_differ("STYLESHEET"@, "PUCSORGFRONT"@);
    reveal_strlit("PUCSORGLEFT");
    lemma_lengths_differ("STYLESHEET"@, "PUCSORGLEFT"@);
    reveal_strlit("PUCSORGRIGHT");
    lemma_lengths_differ("STYLESHEET"@, "PUCSORGRIGHT"@);
    reveal_strlit("PUCSORGTOP");
    lemma_differ_at("STYLESHEET"@, "PUCSORGTOP"@, 0);
    reveal_strlit("PUCSORTHOREF");
    lemma_lengths_differ("STYLESHEET"@, "PUCSORTHOREF"@);
    reveal_strlit("PUCSORTHOVIEW");
    lemma_lengths_differ("STYLESHEET"@, "PUCSORTHOVIEW"@);
    reveal_strlit("UCSBASE");
    lemma_lengths_differ("STYLESHEET"@, "UCSBASE"@);
    reveal_strlit("UCSORGBACK");
    lemma_differ_at("STYLESHEET"@, "UCSORGBACK"@, 0);
    reveal_strlit("UCSORGBOTTOM");
    lemma_lengths_differ("STYLESHEET"@, "UCSORGBOTTOM"@);
    reveal_strlit("UCSORGFRONT");
    lemma_lengths_differ("STYLESHEET"@, "UCSORGFRONT"@);
    reveal_strlit("UCSORGLEFT");
    lemma_differ_at("STYLESHEET"@, "UCSORGLEFT"@, 0);
    reveal_strlit("UCSORGRIGHT");
    lemma_lengths_differ("STYLESHEET"@, "UCSORGRIGHT"@);
    reveal_strlit("UCSORGTOP");
    lemma_lengths_differ("STYLESHEET"@, "UCSORGTOP"@);
    reveal_strlit("UCSORTHOREF");
    lemma_lengths_differ("STYLESHEET"@, "UCSORTHOREF"@);
    reveal_strlit("UCSORTHOVIEW");
    lemma_lengths_differ("STYLESHEET"@, "UCSORTHOVIEW"@);
    reveal_strlit("ACAD_LAYOUTSELFREF");
    lemma_lengths_differ("STYLESHEET"@, "ACAD_LAYOUTSELFREF"@);
    reveal_strlit("LAYOUTDICT");
    lemma_differ_at("STYLESHEET"@, "LAYOUTDICT"@, 0);
    reveal_strlit("PLOTSETDICT");
    lemma_lengths_differ("STYLESHEET"@, "PLOTSETDICT"@);
    reveal_strlit("PLOTSTYLNAMDICT");
    lemma_lengths_differ("STYLESHEET"@, "PLOTSTYLNAMDICT"@);
    reveal_strlit("PSVPSCALE");
    lemma_lengths_differ("STYLESHEET"@, "PSVPSCALE"@);
    law_kind_ignores_case(s, "STYLESHEET"@);
}

proof fn lemma_key_59(s: Seq<char>)
    requires
        eq_ci(s, "HYPERLINKBASE"@),
    ensures
        known_kind_of(s) == KnownXRecordKind::Hyperlink,
{
    reveal_strlit("HYPERLINKBASE");
    reveal_strlit("ADSK_XREC_LAYER_ALPHA_OVR");
    lemma_lengths_differ("HYPERLINKBASE"@, "ADSK_XREC_LAYER_ALPHA_OVR"@);
    reveal_strlit("ADSK_XREC_LAYER_COLOR_OVR");
    lemma_lengths_differ("HYPERLINKBASE"@, "ADSK_XREC_LAYER_COLOR_OVR"@);
    reveal_strlit("ADSK_XREC_LAYER_LINETYPE_OVR");
    lemma_lengths_differ("HYPERLINKBASE"@, "ADSK_XREC_LAYER_LINETYPE_OVR"@);
    reveal_strlit("ADSK_XREC_LAYER_LINEWT_OVR");
    lemma_lengths_differ("HYPERLINKBASE"@, "ADSK_XREC_LAYER_LINEWT_OVR"@);
    reveal_strlit("ADSK_XREC_LAYER_RECONCILED");
    lemma_lengths_differ("HYPERLINKBASE"@, "ADSK_XREC_LAYER_RECONCILED"@);
    reveal_strlit("ACADLAYERSTATEANNOSCALE");
    lemma_lengths_differ("HYPERLINKBASE"@, "ACADLAYERSTATEANNOSCALE"@);
    reveal_strlit("ASDK_XREC_ANNOTATION_SCALE_INFO");
    lemma_lengths_differ("HYPERLINKBASE"@, "ASDK_XREC_ANNOTATION_SCALE_INFO"@);
    reveal_strlit("ASDK_XREC_ANNO_SCALE_INFO");
    lemma_lengths_differ("HYPERLINKBASE"@, "ASDK_XREC_ANNO_SCALE_INFO"@);
    reveal_strlit("ADSK_XREC_VTR_ANNOSCALE_DATA");
    lemma_lengths_differ("HYPERLINKBASE"@, "ADSK_XREC_VTR_ANNOSCALE_DATA"@);
    reveal_strlit("ADSK_XREC_SUBDVERTEXTEXCOORDS");
    lemma_lengths_differ("HYPERLINKBASE"@, "ADSK_XREC_SUBDVERTEXTEXCOORDS"@);
    reveal_strlit("ACAD_XREC_ROUNDTRIP");
    lemma_lengths_differ("HYPERLINKBASE"@, "ACAD_XREC_ROUNDTRIP"@);
    reveal_strlit("ACAD_MTEXT_RT");
    lemma_differ_at("HYPERLINKBASE"@, "ACAD_MTEXT_RT"@, 0);
    reveal_strlit("ACAD_MTEXT_2008_RT");
    lemma_lengths_differ("HYPERLINKBASE"@, "ACAD_MTEXT_2008_RT"@);
    reveal_strlit("ACDBHEADERROUNDTRIPXREC");
    lemma_lengths_differ("HYPERLINKBASE"@, "ACDBHEADERROUNDTRIPXREC"@);
    reveal_strlit("AUXHDRRNDTRIPDATA");
    lemma_lengths_differ("HYPERLINKBASE"@, "AUXHDRRNDTRIPDATA"@);
    reveal_strlit("ACDB_RECOMPOSE_DATA");
    lemma_lengths_differ("HYPERLINKBASE"@, "ACDB_RECOMPOSE_DATA"@);
    reveal_strlit("ACAD_ENHANCEDBLOCKHISTORY");
    lemma_lengths_differ("HYPERLINKBASE"@, "ACAD_ENHANCEDBLOCKHISTORY"@);
    reveal_strlit("ASEBLOCKHIERARCHYINDEXRECORD");
    lemma_lengths_differ("HYPERLINKBASE"@, "ASEBLOCKHIERARCHYINDEXRECORD"@);
    reveal_strlit("ADSK_XREC_LAYOUTTHUMBNAIL");
    lemma_lengths_differ("HYPERLINKBASE"@, "ADSK_XREC_LAYOUTTHUMBNAIL"@);
    reveal_strlit("ADSK_XREC_VTRANIMATIONINFO");
    lemma_lengths_differ("HYPERLINKBASE"@, "ADSK_XREC_VTRANIMATIONINFO"@);
    reveal_strlit("ADSK_XREC_VTRTHUMBNAIL");
    lemma_lengths_differ("HYPERLINKBASE"@, "ADSK_XREC_VTRTHUMBNAIL"@);
    reveal_strlit("ADSK_XREC_VTRVIEWINFO");
    lemma_lengths_differ("HYPERLINKBASE"@, "ADSK_XREC_VTRVIEWINFO"@);
    reveal_strlit("ADSK_XREC_PHOTOMETRICLIGHTINFO");
    lemma_lengths_differ("HYPERLINKBASE"@, "ADSK_XREC_PHOTOMETRICLIGHTINFO"@);
    reveal_strlit("LIGHTINGQUALITY");
    lemma_lengths_differ("HYPERLINKBASE"@, "LIGHTINGQUALITY"@);
    reveal_strlit("ACAD_LAST_SAVED_VERSION_INFO");
    lemma_lengths_differ("HYPERLINKBASE"@, "ACAD_LAST_SAVED_VERSION_INFO"@);
    reveal_strlit("ACAD_CIP_PREVIOUS_PRODUCT_INFO");
    lemma_lengths_differ("HYPERLINKBASE"@, "ACAD_CIP_PREVIOUS_PRODUCT_INFO"@);
    reveal_strlit("DWGPROPS");
    lemma_lengths_differ("HYPERLINKBASE"@, "DWGPROPS"@);
    reveal_strlit("FINGERPRINTGUID");
    lemma_lengths_differ("HYPERLINKBASE"@, "FINGERPRINTGUID"@);
    reveal_strlit("ACADDIM");
    lemma_lengths_differ("HYPERLINKBASE"@, "ACADDIM"@);
    reveal_strlit("DIMSTYLEDATA");
    lemma_lengths_differ("HYPERLINKBASE"@, "DIMSTYLEDATA"@);
    reveal_strlit("DIMLTEX1");
    lemma_lengths_differ("HYPERLINKBASE"@, "DIMLTEX1"@);
    reveal_strlit("DIMLTEX2");
    lemma_lengths_differ("HYPERLINKBASE"@, "DIMLTEX2"@);
    reveal_strlit("DIMLTYPE");
    lemma_lengths_differ("HYPERLINKBASE"@, "DIMLTYPE"@);
    reveal_strlit("TSTACKALIGN");
    lemma_lengths_differ("HYPERLINKBASE"@, "TSTACKALIGN"@);
    reveal_strlit("TSTACKSIZE");
    lemma_lengths_differ("HYPERLINKBASE"@, "TSTACKSIZE"@);
    reveal_strlit("PUCSBASE");
    lemma_lengths_differ("HYPERLINKBASE"@, "PUCSBASE"@);
    reveal_strlit("PUCSORGBACK");
    lemma_lengths_differ("HYPERLINKBASE"@, "PUCSORGBACK"@);
    reveal_strlit("PUCSORGBOTTOM");
    lemma_differ_at("HYPERLINKBASE"@, "PUCSORGBOTTOM"@, 0);
    reveal_strlit("PUCSORGFRONT");
    lemma_lengths_differ("HYPERLINKBASE"@, "PUCSORGFRONT"@);
    reveal_strlit("PUCSORGLEFT");
    lemma_lengths_differ("HYPERLINKBASE"@, "PUCSORGLEFT"@);
    reveal_strlit("PUCSORGRIGHT");
    lemma_lengths_differ("HYPERLINKBASE"@, "PUCSORGRIGHT"@);
    reveal_strlit("PUCSORGTOP");
    lemma_lengths_differ("HYPERLINKBASE"@, "PUCSORGTOP"@);
    reveal_strlit("PUCSORTHOREF");
    lemma_lengths_differ("HYPERLINKBASE"@, "PUCSORTHOREF"@);
    reveal_strlit("PUCSORTHOVIEW");
    lemma_differ_at("HYPERLINKBASE"@, "PUCSORTHOVIEW"@, 0);
    reveal_strlit("UCSBASE");
    lemma_lengths_differ("HYPERLINKBASE"@, "UCSBASE"@);
    reveal_strlit("UCSORGBACK");
    lemma_lengths_differ("HYPERLINKBASE"@, "UCSORGBACK"@);
    reveal_strlit("UCSORGBOTTOM");
    lemma_lengths_differ("HYPERLINKBASE"@, "UCSORGBOTTOM"@);
    reveal_strlit("UCSORGFRONT");
    lemma_lengths_differ("HYPERLINKBASE"@, "UCSORGFRONT"@);
    reveal_strlit("UCSORGLEFT");
    lemma_lengths_differ("HYPERLINKBASE"@, "UCSORGLEFT"@);
    reveal_strlit("UCSORGRIGHT");
    lemma_lengths_differ("HYPERLINKBASE"@, "UCSORGRIGHT"@);
    reveal_strlit("UCSORGTOP");
    lemma_lengths_differ("HYPERLINKBASE"@, "UCSORGTOP"@);
    reveal_strlit("UCSORTHOREF");
    lemma_lengths_differ("HYPERLINKBASE"@, "UCSORTHOREF"@);
    reveal_strlit("UCSORTHOVIEW");
    lemma_lengths_differ("HYPERLINKBASE"@, "UCSORTHOVIEW"@);
    reveal_strlit("ACAD_LAYOUTSELFREF");
    lemma_lengths_differ("HYPERLINKBASE"@, "ACAD_LAYOUTSELFREF"@);
    reveal_strlit("LAYOUTDICT");
    lemma_lengths_differ("HYPERLINKBASE"@, "LAYOUTDICT"@);
    reveal_strlit("PLOTSETDICT");
    lemma_lengths_differ("HYPERLINKBASE"@, "PLOTSETDICT"@);
    reveal_strlit("PLOTSTYLNAMDICT");
    lemma_lengths_differ("HYPERLINKBASE"@, "PLOTSTYLNAMDICT"@);
    reveal_strlit("PSVPSCALE");
    lemma_lengths_differ("HYPERLINKBASE"@, "PSVPSCALE"@);
    reveal_strlit("STYLESHEET");
    lemma_lengths_differ("HYPERLINKBASE"@, "STYLESHEET"@);
    law_kind_ignores_case(s, "HYPERLINKBASE"@);
}

proof fn lemma_key_60(s: Seq<char>)
    requires
        eq_ci(s, "ADVMATERIAL"@),
    ensures
        known_kind_of(s) == KnownXRecordKind::AdvancedMaterial,
{
    reveal_strlit("ADVMATERIAL");
    reveal_strlit("ADSK_XREC_LAYER_ALPHA_OVR");
    lemma_lengths_differ("ADVMATERIAL"@, "ADSK_XREC_LAYER_ALPHA_OVR"@);
    reveal_strlit("ADSK_XREC_LAYER_COLOR_OVR");
    lemma_lengths_differ("ADVMATERIAL"@, "ADSK_XREC_LAYER_COLOR_OVR"@);
    reveal_strlit("ADSK_XREC_LAYER_LINETYPE_OVR");
    lemma_lengths_differ("ADVMATERIAL"@, "ADSK_XREC_LAYER_LINETYPE_OVR"@);
    reveal_strlit("ADSK_XREC_LAYER_LINEWT_OVR");
    lemma_lengths_differ("ADVMATERIAL"@, "ADSK_XREC_LAYER_LINEWT_OVR"@);
    reveal_strlit("ADSK_XREC_LAYER_RECONCILED");
    lemma_lengths_differ("ADVMATERIAL"@, "ADSK_XREC_LAYER_RECONCILED"@);
    reveal_strlit("ACADLAYERSTATEANNOSCALE");
    lemma_lengths_differ("ADVMATERIAL"@, "ACADLAYERSTATEANNOSCALE"@);
    reveal_strlit("ASDK_XREC_ANNOTATION_SCALE_INFO");
    lemma_lengths_differ("ADVMATERIAL"@, "ASDK_XREC_ANNOTATION_SCALE_INFO"@);
    reveal_strlit("ASDK_XREC_ANNO_SCALE_INFO");
    lemma_lengths_differ("ADVMATERIAL"@, "ASDK_XREC_ANNO_SCALE_INFO"@);
    reveal_strlit("ADSK_XREC_VTR_ANNOSCALE_DATA");
    lemma_lengths_differ("ADVMATERIAL"@, "ADSK_XREC_VTR_ANNOSCALE_DATA"@);
    reveal_strlit("ADSK_XREC_SUBDVERTEXTEXCOORDS");
    lemma_lengths_differ("ADVMATERIAL"@, "ADSK_XREC_SUBDVERTEXTEXCOORDS"@);
    reveal_strlit("ACAD_XREC_ROUNDTRIP");
    lemma_lengths_differ("ADVMATERIAL"@, "ACAD_XREC_ROUNDTRIP"@);
    reveal_strlit("ACAD_MTEXT_RT");
    lemma_lengths_differ("ADVMATERIAL"@, "ACAD_MTEXT_RT"@);
    reveal_strlit("ACAD_MTEXT_2008_RT");
    lemma_lengths_differ("ADVMATERIAL"@, "ACAD_MTEXT_2008_RT"@);
    reveal_strlit("ACDBHEADERROUNDTRIPXREC");
    lemma_lengths_differ("ADVMATERIAL"@, "ACDBHEADERROUNDTRIPXREC"@);
    reveal_strlit("AUXHDRRNDTRIPDATA");
    lemma_lengths_differ("ADVMATERIAL"@, "AUXHDRRNDTRIPDATA"@);
    reveal_strlit("ACDB_RECOMPOSE_DATA");
    lemma_lengths_differ("ADVMATERIAL"@, "ACDB_RECOMPOSE_DATA"@);
    reveal_strlit("ACAD_ENHANCEDBLOCKHISTORY");
    lemma_lengths_differ("ADVMATERIAL"@, "ACAD_ENHANCEDBLOCKHISTORY"@);
    reveal_strlit("ASEBLOCKHIERARCHYINDEXRECORD");
    lemma_lengths_differ("ADVMATERIAL"@, "ASEBLOCKHIERARCHYINDEXRECORD"@);
    reveal_strlit("ADSK_XREC_LAYOUTTHUMBNAIL");
    lemma_lengths_differ("ADVMATERIAL"@, "ADSK_XREC_LAYOUTTHUMBNAIL"@);
    reveal_strlit("ADSK_XREC_VTRANIMATIONINFO");
    lemma_lengths_differ("ADVMATERIAL"@, "ADSK_XREC_VTRANIMATIONINFO"@);
    reveal_strlit("ADSK_XREC_VTRTHUMBNAIL");
    lemma_lengths_differ("ADVMATERIAL"@, "ADSK_XREC_VTRTHUMBNAIL"@);
    reveal_strlit("ADSK_XREC_VTRVIEWINFO");
    lemma_lengths_differ("ADVMATERIAL"@, "ADSK_XREC_VTRVIEWINFO"@);
    reveal_strlit("ADSK_XREC_PHOTOMETRICLIGHTINFO");
    lemma_lengths_differ("ADVMATERIAL"@, "ADSK_XREC_PHOTOMETRICLIGHTINFO"@);
    reveal_strlit("LIGHTINGQUALITY");
    lemma_lengths_differ("ADVMATERIAL"@, "LIGHTINGQUALITY"@);
    reveal_strlit("ACAD_LAST_SAVED_VERSION_INFO");
    lemma_lengths_differ("ADVMATERIAL"@, "ACAD_LAST_SAVED_VERSION_INFO"@);
    reveal_strlit("ACAD_CIP_PREVIOUS_PRODUCT_INFO");
    lemma_lengths_differ("ADVMATERIAL"@, "ACAD_CIP_PREVIOUS_PRODUCT_INFO"@);
    reveal_strlit("DWGPROPS");
    lemma_lengths_differ("ADVMATERIAL"@, "DWGPROPS"@);
    reveal_strlit("FINGERPRINTGUID");
    lemma_lengths_differ("ADVMATERIAL"@, "FINGERPRINTGUID"@);
    reveal_strlit("ACADDIM");
    lemma_lengths_differ("ADVMATERIAL"@, "ACADDIM"@);
    reveal_strlit("DIMSTYLEDATA");
    lemma_lengths_differ("ADVMATERIAL"@, "DIMSTYLEDATA"@);
    reveal_strlit("DIMLTEX1");
    lemma_lengths_differ("ADVMATERIAL"@, "DIMLTEX1"@);
    reveal_strlit("DIMLTEX2");
    lemma_lengths_differ("ADVMATERIAL"@, "DIMLTEX2"@);
    reveal_strlit("DIMLTYPE");
    lemma_lengths_differ("ADVMATERIAL"@, "DIMLTYPE"@);
    reveal_strlit("TSTACKALIGN");
    lemma_differ_at("ADVMATERIAL"@, "TSTACKALIGN"@, 0);
    reveal_strlit("TSTACKSIZE");
    lemma_lengths_differ("ADVMATERIAL"@, "TSTACKSIZE"@);
    reveal_strlit("PUCSBASE");
    lemma_lengths_differ("ADVMATERIAL"@, "PUCSBASE"@);
    reveal_strlit("PUCSORGBACK");
    lemma_differ_at("ADVMATERIAL"@, "PUCSORGBACK"@, 0);
    reveal_strlit("PUCSORGBOTTOM");
    lemma_lengths_differ("ADVMATERIAL"@, "PUCSORGBOTTOM"@);
    reveal_strlit("PUCSORGFRONT");
    lemma_lengths_differ("ADVMATERIAL"@, "PUCSORGFRONT"@);
    reveal_strlit("PUCSORGLEFT");
    lemma_differ_at("ADVMATERIAL"@, "PUCSORGLEFT"@, 0);
    reveal_strlit("PUCSORGRIGHT");
    lemma_lengths_differ("ADVMATERIAL"@, "PUCSORGRIGHT"@);
    reveal_strlit("PUCSORGTOP");
    lemma_lengths_differ("ADVMATERIAL"@, "PUCSORGTOP"@);
    reveal_strlit("PUCSORTHOREF");
    lemma_lengths_differ("ADVMATERIAL"@, "PUCSORTHOREF"@);
    reveal_strlit("PUCSORTHOVIEW");
    lemma_lengths_differ("ADVMATERIAL"@, "PUCSORTHOVIEW"@);
    reveal_strlit("UCSBASE");
    lemma_lengths_differ("ADVMATERIAL"@, "UCSBASE"@);
    reveal_strlit("UCSORGBACK");
    lemma_lengths_differ("ADVMATERIAL"@, "UCSORGBACK"@);
    reveal_strlit("UCSORGBOTTOM");
    lemma_lengths_differ("ADVMATERIAL"@, "UCSORGBOTTOM"@);
    reveal_strlit("UCSORGFRONT");
    lemma_differ_at("ADVMATERIAL"@, "UCSORGFRONT"@, 0);
    reveal_strlit("UCSORGLEFT");
    lemma_lengths_differ("ADVMATERIAL"@, "UCSORGLEFT"@);
    reveal_strlit("UCSORGRIGHT");
    lemma_differ_at("ADVMATERIAL"@, "UCSORGRIGHT"@, 0);
    reveal_strlit("UCSORGTOP");
    lemma_lengths_differ("ADVMATERIAL"@, "UCSORGTOP"@);
    reveal_strlit("UCSORTHOREF");
    lemma_differ_at("ADVMATERIAL"@, "UCSORTHOREF"@, 0);
    reveal_strlit("UCSORTHOVIEW");
    lemma_lengths_differ("ADVMATERIAL"@, "UCSORTHOVIEW"@);
    reveal_strlit("ACAD_LAYOUTSELFREF");
    lemma_lengths_differ("ADVMATERIAL"@, "ACAD_LAYOUTSELFREF"@);
    reveal_strlit("LAYOUTDICT");
    lemma_lengths_differ("ADVMATERIAL"@, "LAYOUTDICT"@);
    reveal_strlit("PLOTSETDICT");
    lemma_differ_at("ADVMATERIAL"@, "PLOTSETDICT"@, 0);
    reveal_strlit("PLOTSTYLNAMDICT");
    lemma_lengths_differ("ADVMATERIAL"@, "PLOTSTYLNAMDICT"@);
    reveal_strlit("PSVPSCALE");
    lemma_lengths_differ("ADVMATERIAL"@, "PSVPSCALE"@);
    reveal_strlit("STYLESHEET");
    lemma_lengths_differ("ADVMATERIAL"@, "STYLESHEET"@);
    reveal_strlit("HYPERLINKBASE");
    lemma_lengths_differ("ADVMATERIAL"@, "HYPERLINKBASE"@);
    law_kind_ignores_case(s, "ADVMATERIAL"@);
}

proof fn lemma_key_61(s: Seq<char>)
    requires
        eq_ci(s, "FBXASSET"@),
    ensures
        known_kind_of(s) == KnownXRecordKind::MaterialAsset,
{
    reveal_strlit("FBXASSET");
    reveal_strlit("ADSK_XREC_LAYER_ALPHA_OVR");
    lemma_lengths_differ("FBXASSET"@, "ADSK_XREC_LAYER_ALPHA_OVR"@);
    reveal_strlit("ADSK_XREC_LAYER_COLOR_OVR");
    lemma_lengths_differ("FBXASSET"@, "ADSK_XREC_LAYER_COLOR_OVR"@);
    reveal_strlit("ADSK_XREC_LAYER_LINETYPE_OVR");
    lemma_lengths_differ("FBXASSET"@, "ADSK_XREC_LAYER_LINETYPE_OVR"@);
    reveal_strlit("ADSK_XREC_LAYER_LINEWT_OVR");
    lemma_lengths_differ("FBXASSET"@, "ADSK_XREC_LAYER_LINEWT_OVR"@);
    reveal_strlit("ADSK_XREC_LAYER_RECONCILED");
    lemma_lengths_differ("FBXASSET"@, "ADSK_XREC_LAYER_RECONCILED"@);
    reveal_strlit("ACADLAYERSTATEANNOSCALE");
    lemma_lengths_differ("FBXASSET"@, "ACADLAYERSTATEANNOSCALE"@);
    reveal_strlit("ASDK_XREC_ANNOTATION_SCALE_INFO");
    lemma_lengths_differ("FBXASSET"@, "ASDK_XREC_ANNOTATION_SCALE_INFO"@);
    reveal_strlit("ASDK_XREC_ANNO_SCALE_INFO");
    lemma_lengths_differ("FBXASSET"@, "ASDK_XREC_ANNO_SCALE_INFO"@);
    reveal_strlit("ADSK_XREC_VTR_ANNOSCALE_DATA");
    lemma_lengths_differ("FBXASSET"@, "ADSK_XREC_VTR_ANNOSCALE_DATA"@);
    reveal_strlit("ADSK_XREC_SUBDVERTEXTEXCOORDS");
    lemma_lengths_differ("FBXASSET"@, "ADSK_XREC_SUBDVERTEXTEXCOORDS"@);
    reveal_strlit("ACAD_XREC_ROUNDTRIP");
    lemma_lengths_differ("FBXASSET"@, "ACAD_XREC_ROUNDTRIP"@);
    reveal_strlit("ACAD_MTEXT_RT");
    lemma_lengths_differ("FBXASSET"@, "ACAD_MTEXT_RT"@);
    reveal_strlit("ACAD_MTEXT_2008_RT");
    lemma_lengths_differ("FBXASSET"@, "ACAD_MTEXT_2008_RT"@);
    reveal_strlit("ACDBHEADERROUNDTRIPXREC");
    lemma_lengths_differ("FBXASSET"@, "ACDBHEADERROUNDTRIPXREC"@);
    reveal_strlit("AUXHDRRNDTRIPDATA");
    lemma_lengths_differ("FBXASSET"@, "AUXHDRRNDTRIPDATA"@);
    reveal_strlit("ACDB_RECOMPOSE_DATA");
    lemma_lengths_differ("FBXASSET"@, "ACDB_RECOMPOSE_DATA"@);
    reveal_strlit("ACAD_ENHANCEDBLOCKHISTORY");
    lemma_lengths_differ("FBXASSET"@, "ACAD_ENHANCEDBLOCKHISTORY"@);
    reveal_strlit("ASEBLOCKHIERARCHYINDEXRECORD");
    lemma_lengths_differ("FBXASSET"@, "ASEBLOCKHIERARCHYINDEXRECORD"@);
    reveal_strlit("ADSK_XREC_LAYOUTTHUMBNAIL");
    lemma_lengths_differ("FBXASSET"@, "ADSK_XREC_LAYOUTTHUMBNAIL"@);
    reveal_strlit("ADSK_XREC_VTRANIMATIONINFO");
    lemma_lengths_differ("FBXASSET"@, "ADSK_XREC_VTRANIMATIONINFO"@);
    reveal_strlit("ADSK_XREC_VTRTHUMBNAIL");
    lemma_lengths_differ("FBXASSET"@, "ADSK_XREC_VTRTHUMBNAIL"@);
    reveal_strlit("ADSK_XREC_VTRVIEWINFO");
    lemma_lengths_differ("FBXASSET"@, "ADSK_XREC_VTRVIEWINFO"@);
    reveal_strlit("ADSK_XREC_PHOTOMETRICLIGHTINFO");
    lemma_lengths_differ("FBXASSET"@, "ADSK_XREC_PHOTOMETRICLIGHTINFO"@);
    reveal_strlit("LIGHTINGQUALITY");
    lemma_lengths_differ("FBXASSET"@, "LIGHTINGQUALITY"@);
    reveal_strlit("ACAD_LAST_SAVED_VERSION_INFO");
    lemma_lengths_differ("FBXASSET"@, "ACAD_LAST_SAVED_VERSION_INFO"@);
    reveal_strlit("ACAD_CIP_PREVIOUS_PRODUCT_INFO");
    lemma_lengths_differ("FBXASSET"@, "ACAD_CIP_PREVIOUS_PRODUCT_INFO"@);
    reveal_strlit("DWGPROPS");
    lemma_differ_at("FBXASSET"@, "DWGPROPS"@, 0);
    reveal_strlit("FINGERPRINTGUID");
    lemma_lengths_differ("FBXASSET"@, "FINGERPRINTGUID"@);
    reveal_strlit("ACADDIM");
    lemma_lengths_differ("FBXASSET"@, "ACADDIM"@);
    reveal_strlit("DIMSTYLEDATA");
    lemma_lengths_differ("FBXASSET"@, "DIMSTYLEDATA"@);
    reveal_strlit("DIMLTEX1");
    lemma_differ_at("FBXASSET"@, "DIMLTEX1"@, 0);
    reveal_strlit("DIMLTEX2");
    lemma_differ_at("FBXASSET"@, "DIMLTEX2"@, 0);
    reveal_strlit("DIMLTYPE");
    lemma_differ_at("FBXASSET"@, "DIMLTYPE"@, 0);
    reveal_strlit("TSTACKALIGN");
    lemma_lengths_differ("FBXASSET"@, "TSTACKALIGN"@);
    reveal_strlit("TSTACKSIZE");
    lemma_lengths_differ("FBXASSET"@, "TSTACKSIZE"@);
    reveal_strlit("PUCSBASE");
    lemma_differ_at("FBXASSET"@, "PUCSBASE"@, 0);
    reveal_strlit("PUCSORGBACK");
    lemma_lengths_differ("FBXASSET"@, "PUCSORGBACK"@);
    reveal_strlit("PUCSORGBOTTOM");
    lemma_lengths_differ("FBXASSET"@, "PUCSORGBOTTOM"@);
    reveal_strlit("PUCSORGFRONT");
    lemma_lengths_differ("FBXASSET"@, "PUCSORGFRONT"@);
    reveal_strlit("PUCSORGLEFT");
    lemma_lengths_differ("FBXASSET"@, "PUCSORGLEFT"@);
    reveal_strlit("PUCSORGRIGHT");
    lemma_lengths_differ("FBXASSET"@, "PUCSORGRIGHT"@);
    reveal_strlit("PUCSORGTOP");
    lemma_lengths_differ("FBXASSET"@, "PUCSORGTOP"@);
    reveal_strlit("PUCSORTHOREF");
    lemma_lengths_differ("FBXASSET"@, "PUCSORTHOREF"@);
    reveal_strlit("PUCSORTHOVIEW");
    lemma_lengths_differ("FBXASSET"@, "PUCSORTHOVIEW"@);
    reveal_strlit("UCSBASE");
    lemma_lengths_differ("FBXASSET"@, "UCSBASE"@);
    reveal_strlit("UCSORGBACK");
    lemma_lengths_differ("FBXASSET"@, "UCSORGBACK"@);
    reveal_strlit("UCSORGBOTTOM");
    lemma_lengths_differ("FBXASSET"@, "UCSORGBOTTOM"@);
    reveal_strlit("UCSORGFRONT");
    lemma_lengths_differ("FBXASSET"@, "UCSORGFRONT"@);
    reveal_strlit("UCSORGLEFT");
    lemma_lengths_differ("FBXASSET"@, "UCSORGLEFT"@);
    reveal_strlit("UCSORGRIGHT");
    lemma_lengths_differ("FBXASSET"@, "UCSORGRIGHT"@);
    reveal_strlit("UCSORGTOP");
    lemma_lengths_differ("FBXASSET"@, "UCSORGTOP"@);
    reveal_strlit("UCSORTHOREF");
    lemma_lengths_differ("FBXASSET"@, "UCSORTHOREF"@);
    reveal_strlit("UCSORTHOVIEW");
    lemma_lengths_differ("FBXASSET"@, "UCSORTHOVIEW"@);
    reveal_strlit("ACAD_LAYOUTSELFREF");
    lemma_lengths_differ("FBXASSET"@, "ACAD_LAYOUTSELFREF"@);
    reveal_strlit("LAYOUTDICT");
    lemma_lengths_differ("FBXASSET"@, "LAYOUTDICT"@);
    reveal_strlit("PLOTSETDICT");
    lemma_lengths_differ("FBXASSET"@, "PLOTSETDICT"@);
    reveal_strlit("PLOTSTYLNAMDICT");
    lemma_lengths_differ("FBXASSET"@, "PLOTSTYLNAMDICT"@);
    reveal_strlit("PSVPSCALE");
    lemma_lengths_differ("FBXASSET"@, "PSVPSCALE"@);
    reveal_strlit("STYLESHEET");
    lemma_lengths_differ("FBXASSET"@, "STYLESHEET"@);
    reveal_strlit("HYPERLINKBASE");
    lemma_lengths_differ("FBXASSET"@, "HYPERLINKBASE"@);
    reveal_strlit("ADVMATERIAL");
    lemma_lengths_differ("FBXASSET"@, "ADVMATERIAL"@);
    law_kind_ignores_case(s, "FBXASSET"@);
}

proof fn lemma_key_62(s: Seq<char>)
    requires
        eq_ci(s, "BUMPTILE"@),
    ensures
        known_kind_of(s) == KnownXRecordKind::MaterialAsset,
{
    reveal_strlit("BUMPTILE");
    reveal_strlit("ADSK_XREC_LAYER_ALPHA_OVR");
    lemma_lengths_differ("BUMPTILE"@, "ADSK_XREC_LAYER_ALPHA_OVR"@);
    reveal_strlit("ADSK_XREC_LAYER_COLOR_OVR");
    lemma_lengths_differ("BUMPTILE"@, "ADSK_XREC_LAYER_COLOR_OVR"@);
    reveal_strlit("ADSK_XREC_LAYER_LINETYPE_OVR");
    lemma_lengths_differ("BUMPTILE"@, "ADSK_XREC_LAYER_LINETYPE_OVR"@);
    reveal_strlit("ADSK_XREC_LAYER_LINEWT_OVR");
    lemma_lengths_differ("BUMPTILE"@, "ADSK_XREC_LAYER_LINEWT_OVR"@);
    reveal_strlit("ADSK_XREC_LAYER_RECONCILED");
    lemma_lengths_differ("BUMPTILE"@, "ADSK_XREC_LAYER_RECONCILED"@);
    reveal_strlit("ACADLAYERSTATEANNOSCALE");
    lemma_lengths_differ("BUMPTILE"@, "ACADLAYERSTATEANNOSCALE"@);
    reveal_strlit("ASDK_XREC_ANNOTATION_SCALE_INFO");
    lemma_lengths_differ("BUMPTILE"@, "ASDK_XREC_ANNOTATION_SCALE_INFO"@);
    reveal_strlit("ASDK_XREC_ANNO_SCALE_INFO");
    lemma_lengths_differ("BUMPTILE"@, "ASDK_XREC_ANNO_SCALE_INFO"@);
    reveal_strlit("ADSK_XREC_VTR_ANNOSCALE_DATA");
    lemma_lengths_differ("BUMPTILE"@, "ADSK_XREC_VTR_ANNOSCALE_DATA"@);
    reveal_strlit("ADSK_XREC_SUBDVERTEXTEXCOORDS");
    lemma_lengths_differ("BUMPTILE"@, "ADSK_XREC_SUBDVERTEXTEXCOORDS"@);
    reveal_strlit("ACAD_XREC_ROUNDTRIP");
    lemma_lengths_differ("BUMPTILE"@, "ACAD_XREC_ROUNDTRIP"@);
    reveal_strlit("ACAD_MTEXT_RT");
    lemma_lengths_differ("BUMPTILE"@, "ACAD_MTEXT_RT"@);
    reveal_strlit("ACAD_MTEXT_2008_RT");
    lemma_lengths_differ("BUMPTILE"@, "ACAD_MTEXT_2008_RT"@);
    reveal_strlit("ACDBHEADERROUNDTRIPXREC");
    lemma_lengths_differ("BUMPTILE"@, "ACDBHEADERROUNDTRIPXREC"@);
    reveal_strlit("AUXHDRRNDTRIPDATA");
    lemma_lengths_differ("BUMPTILE"@, "AUXHDRRNDTRIPDATA"@);
    reveal_strlit("ACDB_RECOMPOSE_DATA");
    lemma_lengths_differ("BUMPTILE"@, "ACDB_RECOMPOSE_DATA"@);
    reveal_strlit("ACAD_ENHANCEDBLOCKHISTORY");
    lemma_lengths_differ("BUMPTILE"@, "ACAD_ENHANCEDBLOCKHISTORY"@);
    reveal_strlit("ASEBLOCKHIERARCHYINDEXRECORD");
    lemma_lengths_differ("BUMPTILE"@, "ASEBLOCKHIERARCHYINDEXRECORD"@);
    reveal_strlit("ADSK_XREC_LAYOUTTHUMBNAIL");
    lemma_lengths_differ("BUMPTILE"@, "ADSK_XREC_LAYOUTTHUMBNAIL"@);
    reveal_strlit("ADSK_XREC_VTRANIMATIONINFO");
    lemma_lengths_differ("BUMPTILE"@, "ADSK_XREC_VTRANIMATIONINFO"@);
    reveal_strlit("ADSK_XREC_VTRTHUMBNAIL");
    lemma_lengths_differ("BUMPTILE"@, "ADSK_XREC_VTRTHUMBNAIL"@);
    reveal_strlit("ADSK_XREC_VTRVIEWINFO");
    lemma_lengths_differ("BUMPTILE"@, "ADSK_XREC_VTRVIEWINFO"@);
    reveal_strlit("ADSK_XREC_PHOTOMETRICLIGHTINFO");
    lemma_lengths_differ("BUMPTILE"@, "ADSK_XREC_PHOTOMETRICLIGHTINFO"@);
    reveal_strlit("LIGHTINGQUALITY");
    lemma_lengths_differ("BUMPTILE"@, "LIGHTINGQUALITY"@);
    reveal_strlit("ACAD_LAST_SAVED_VERSION_INFO");
    lemma_lengths_differ("BUMPTILE"@, "ACAD_LAST_SAVED_VERSION_INFO"@);
    reveal_strlit("ACAD_CIP_PREVIOUS_PRODUCT_INFO");
    lemma_lengths_differ("BUMPTILE"@, "ACAD_CIP_PREVIOUS_PRODUCT_INFO"@);
    reveal_strlit("DWGPROPS");
    lemma_differ_at("BUMPTILE"@, "DWGPROPS"@, 0);
    reveal_strlit("FINGERPRINTGUID");
    lemma_lengths_differ("BUMPTILE"@, "FINGERPRINTGUID"@);
    reveal_strlit("ACADDIM");
    lemma_lengths_differ("BUMPTILE"@, "ACADDIM"@);
    reveal_strlit("DIMSTYLEDATA");
    lemma_lengths_differ("BUMPTILE"@, "DIMSTYLEDATA"@);
    reveal_strlit("DIMLTEX1");
    lemma_differ_at("BUMPTILE"@, "DIMLTEX1"@, 0);
    reveal_strlit("DIMLTEX2");
    lemma_differ_at("BUMPTILE"@, "DIMLTEX2"@, 0);
    reveal_strlit("DIMLTYPE");
    lemma_differ_at("BUMPTILE"@, "DIMLTYPE"@, 0);
    reveal_strlit("TSTACKALIGN");
    lemma_lengths_differ("BUMPTILE"@, "TSTACKALIGN"@);
    reveal_strlit("TSTACKSIZE");
    lemma_lengths_differ("BUMPTILE"@, "TSTACKSIZE"@);
    reveal_strlit("PUCSBASE");
    lemma_differ_at("BUMPTILE"@, "PUCSBASE"@, 0);
    reveal_strlit("PUCSORGBACK");
    lemma_lengths_differ("BUMPTILE"@, "PUCSORGBACK"@);
    reveal_strlit("PUCSORGBOTTOM");
    lemma_lengths_differ("BUMPTILE"@, "PUCSORGBOTTOM"@);
    reveal_strlit("PUCSORGFRONT");
    lemma_lengths_differ("BUMPTILE"@, "PUCSORGFRONT"@);
    reveal_strlit("PUCSORGLEFT");
    lemma_lengths_differ("BUMPTILE"@, "PUCSORGLEFT"@);
    reveal_strlit("PUCSORGRIGHT");
    lemma_lengths_differ("BUMPTILE"@, "PUCSORGRIGHT"@);
    reveal_strlit("PUCSORGTOP");
    lemma_lengths_differ("BUMPTILE"@, "PUCSORGTOP"@);
    reveal_strlit("PUCSORTHOREF");
    lemma_lengths_differ("BUMPTILE"@, "PUCSORTHOREF"@);
    reveal_strlit("PUCSORTHOVIEW");
    lemma_lengths_differ("BUMPTILE"@, "PUCSORTHOVIEW"@);
    reveal_strlit("UCSBASE");
    lemma_lengths_differ("BUMPTILE"@, "UCSBASE"@);
    reveal_strlit("UCSORGBACK");
    lemma_lengths_differ("BUMPTILE"@, "UCSORGBACK"@);
    reveal_strlit("UCSORGBOTTOM");
    lemma_lengths_differ("BUMPTILE"@, "UCSORGBOTTOM"@);
    reveal_strlit("UCSORGFRONT");
    lemma_lengths_differ("BUMPTILE"@, "UCSORGFRONT"@);
    reveal_strlit("UCSORGLEFT");
    lemma_lengths_differ("BUMPTILE"@, "UCSORGLEFT"@);
    reveal_strlit("UCSORGRIGHT");
    lemma_lengths_differ("BUMPTILE"@, "UCSORGRIGHT"@);
    reveal_strlit("UCSORGTOP");
    lemma_lengths_differ("BUMPTILE"@, "UCSORGTOP"@);
    reveal_strlit("UCSORTHOREF");
    lemma_lengths_differ("BUMPTILE"@, "UCSORTHOREF"@);
    reveal_strlit("UCSORTHOVIEW");
    lemma_lengths_differ("BUMPTILE"@, "UCSORTHOVIEW"@);
    reveal_strlit("ACAD_LAYOUTSELFREF");
    lemma_lengths_differ("BUMPTILE"@, "ACAD_LAYOUTSELFREF"@);
    reveal_strlit("LAYOUTDICT");
    lemma_lengths_differ("BUMPTILE"@, "LAYOUTDICT"@);
    reveal_strlit("PLOTSETDICT");
    lemma_lengths_differ("BUMPTILE"@, "PLOTSETDICT"@);
    reveal_strlit("PLOTSTYLNAMDICT");
    lemma_lengths_differ("BUMPTILE"@, "PLOTSTYLNAMDICT"@);
    reveal_strlit("PSVPSCALE");
    lemma_lengths_differ("BUMPTILE"@, "PSVPSCALE"@);
    reveal_strlit("STYLESHEET");
    lemma_lengths_differ("BUMPTILE"@, "STYLESHEET"@);
    reveal_strlit("HYPERLINKBASE");
    lemma_lengths_differ("BUMPTILE"@, "HYPERLINKBASE"@);
    reveal_strlit("ADVMATERIAL");
    lemma_lengths_differ("BUMPTILE"@, "ADVMATERIAL"@);
    reveal_strlit("FBXASSET");
    lemma_differ_at("BUMPTILE"@, "FBXASSET"@, 0);
    law_kind_ignores_case(s, "BUMPTILE"@);
}

proof fn lemma_key_63(s: Seq<char>)
    requires
        eq_ci(s, "DIFFUSETILE"@),
    ensures
        known_kind_of(s) == KnownXRecordKind::MaterialAsset,
{
    reveal_strlit("DIFFUSETILE");
    reveal_strlit("ADSK_XREC_LAYER_ALPHA_OVR");
    lemma_lengths_differ("DIFFUSETILE"@, "ADSK_XREC_LAYER_ALPHA_OVR"@);
    reveal_strlit("ADSK_XREC_LAYER_COLOR_OVR");
    lemma_lengths_differ("DIFFUSETILE"@, "ADSK_XREC_LAYER_COLOR_OVR"@);
    reveal_strlit("ADSK_XREC_LAYER_LINETYPE_OVR");
    lemma_lengths_differ("DIFFUSETILE"@, "ADSK_XREC_LAYER_LINETYPE_OVR"@);
    reveal_strlit("ADSK_XREC_LAYER_LINEWT_OVR");
    lemma_lengths_differ("DIFFUSETILE"@, "ADSK_XREC_LAYER_LINEWT_OVR"@);
    reveal_strlit("ADSK_XREC_LAYER_RECONCILED");
    lemma_lengths_differ("DIFFUSETILE"@, "ADSK_XREC_LAYER_RECONCILED"@);
    reveal_strlit("ACADLAYERSTATEANNOSCALE");
    lemma_lengths_differ("DIFFUSETILE"@, "ACADLAYERSTATEANNOSCALE"@);
    reveal_strlit("ASDK_XREC_ANNOTATION_SCALE_INFO");
    lemma_lengths_differ("DIFFUSETILE"@, "ASDK_XREC_ANNOTATION_SCALE_INFO"@);
    reveal_strlit("ASDK_XREC_ANNO_SCALE_INFO");
    lemma_lengths_differ("DIFFUSETILE"@, "ASDK_XREC_ANNO_SCALE_INFO"@);
    reveal_strlit("ADSK_XREC_VTR_ANNOSCALE_DATA");
    lemma_lengths_differ("DIFFUSETILE"@, "ADSK_XREC_VTR_ANNOSCALE_DATA"@);
    reveal_strlit("ADSK_XREC_SUBDVERTEXTEXCOORDS");
    lemma_lengths_differ("DIFFUSETILE"@, "ADSK_XREC_SUBDVERTEXTEXCOORDS"@);
    reveal_strlit("ACAD_XREC_ROUNDTRIP");
    lemma_lengths_differ("DIFFUSETILE"@, "ACAD_XREC_ROUNDTRIP"@);
    reveal_strlit("ACAD_MTEXT_RT");
    lemma_lengths_differ("DIFFUSETILE"@, "ACAD_MTEXT_RT"@);
    reveal_strlit("ACAD_MTEXT_2008_RT");
    lemma_lengths_differ("DIFFUSETILE"@, "ACAD_MTEXT_2008_RT"@);
    reveal_strlit("ACDBHEADERROUNDTRIPXREC");
    lemma_lengths_differ("DIFFUSETILE"@, "ACDBHEADERROUNDTRIPXREC"@);
    reveal_strlit("AUXHDRRNDTRIPDATA");
    lemma_lengths_differ("DIFFUSETILE"@, "AUXHDRRNDTRIPDATA"@);
    reveal_strlit("ACDB_RECOMPOSE_DATA");
    lemma_lengths_differ("DIFFUSETILE"@, "ACDB_RECOMPOSE_DATA"@);
    reveal_strlit("ACAD_ENHANCEDBLOCKHISTORY");
    lemma_lengths_differ("DIFFUSETILE"@, "ACAD_ENHANCEDBLOCKHISTORY"@);
    reveal_strlit("ASEBLOCKHIERARCHYINDEXRECORD");
    lemma_lengths_differ("DIFFUSETILE"@, "ASEBLOCKHIERARCHYINDEXRECORD"@);
    reveal_strlit("ADSK_XREC_LAYOUTTHUMBNAIL");
    lemma_lengths_differ("DIFFUSETILE"@, "ADSK_XREC_LAYOUTTHUMBNAIL"@);
    reveal_strlit("ADSK_XREC_VTRANIMATIONINFO");
    lemma_lengths_differ("DIFFUSETILE"@, "ADSK_XREC_VTRANIMATIONINFO"@);
    reveal_strlit("ADSK_XREC_VTRTHUMBNAIL");
    lemma_lengths_differ("DIFFUSETILE"@, "ADSK_XREC_VTRTHUMBNAIL"@);
    reveal_strlit("ADSK_XREC_VTRVIEWINFO");
    lemma_lengths_differ("DIFFUSETILE"@, "ADSK_XREC_VTRVIEWINFO"@);
    reveal_strlit("ADSK_XREC_PHOTOMETRICLIGHTINFO");
    lemma_lengths_differ("DIFFUSETILE"@, "ADSK_XREC_PHOTOMETRICLIGHTINFO"@);
    reveal_strlit("LIGHTINGQUALITY");
    lemma_lengths_differ("DIFFUSETILE"@, "LIGHTINGQUALITY"@);
    reveal_strlit("ACAD_LAST_SAVED_VERSION_INFO");
    lemma_lengths_differ("DIFFUSETILE"@, "ACAD_LAST_SAVED_VERSION_INFO"@);
    reveal_strlit("ACAD_CIP_PREVIOUS_PRODUCT_INFO");
    lemma_lengths_differ("DIFFUSETILE"@, "ACAD_CIP_PREVIOUS_PRODUCT_INFO"@);
    reveal_strlit("DWGPROPS");
    lemma_lengths_differ("DIFFUSETILE"@, "DWGPROPS"@);
    reveal_strlit("FINGERPRINTGUID");
    lemma_lengths_differ("DIFFUSETILE"@, "FINGERPRINTGUID"@);
    reveal_strlit("ACADDIM");
    lemma_lengths_differ("DIFFUSETILE"@, "ACADDIM"@);
    reveal_strlit("DIMSTYLEDATA");
    lemma_lengths_differ("DIFFUSETILE"@, "DIMSTYLEDATA"@);
    reveal_strlit("DIMLTEX1");
    lemma_lengths_differ("DIFFUSETILE"@, "DIMLTEX1"@);
    reveal_strlit("DIMLTEX2");
    lemma_lengths_differ("DIFFUSETILE"@, "DIMLTEX2"@);
    reveal_strlit("DIMLTYPE");
    lemma_lengths_differ("DIFFUSETILE"@, "DIMLTYPE"@);
    reveal_strlit("TSTACKALIGN");
    lemma_differ_at("DIFFUSETILE"@, "TSTACKALIGN"@, 0);
    reveal_strlit("TSTACKSIZE");
    lemma_lengths_differ("DIFFUSETILE"@, "TSTACKSIZE"@);
    reveal_strlit("PUCSBASE");
    lemma_lengths_differ("DIFFUSETILE"@, "PUCSBASE"@);
    reveal_strlit("PUCSORGBACK");
    lemma_differ_at("DIFFUSETILE"@, "PUCSORGBACK"@, 0);
    reveal_strlit("PUCSORGBOTTOM");
    lemma_lengths_differ("DIFFUSETILE"@, "PUCSORGBOTTOM"@);
    reveal_strlit("PUCSORGFRONT");
    lemma_lengths_differ("DIFFUSETILE"@, "PUCSORGFRONT"@);
    reveal_strlit("PUCSORGLEFT");
    lemma_differ_at("DIFFUSETILE"@, "PUCSORGLEFT"@, 0);
    reveal_strlit("PUCSORGRIGHT");
    lemma_lengths_differ("DIFFUSETILE"@, "PUCSORGRIGHT"@);
    reveal_strlit("PUCSORGTOP");
    lemma_lengths_differ("DIFFUSETILE"@, "PUCSORGTOP"@);
    reveal_strlit("PUCSORTHOREF");
    lemma_lengths_differ("DIFFUSETILE"@, "PUCSORTHOREF"@);
    reveal_strlit("PUCSORTHOVIEW");
    lemma_lengths_differ("DIFFUSETILE"@, "PUCSORTHOVIEW"@);
    reveal_strlit("UCSBASE");
    lemma_lengths_differ("DIFFUSETILE"@, "UCSBASE"@);
    reveal_strlit("UCSORGBACK");
    lemma_lengths_differ("DIFFUSETILE"@, "UCSORGBACK"@);
    reveal_strlit("UCSORGBOTTOM");
    lemma_lengths_differ("DIFFUSETILE"@, "UCSORGBOTTOM"@);
    reveal_strlit("UCSORGFRONT");
    lemma_differ_at("DIFFUSETILE"@, "UCSORGFRONT"@, 0);
    reveal_strlit("UCSORGLEFT");
    lemma_lengths_differ("DIFFUSETILE"@, "UCSORGLEFT"@);
    reveal_strlit("UCSORGRIGHT");
    lemma_differ_at("DIFFUSETILE"@, "UCSORGRIGHT"@, 0);
    reveal_strlit("UCSORGTOP");
    lemma_lengths_differ("DIFFUSETILE"@, "UCSORGTOP"@);
    reveal_strlit("UCSORTHOREF");
    lemma_differ_at("DIFFUSETILE"@, "UCSORTHOREF"@, 0);
    reveal_strlit("UCSORTHOVIEW");
    lemma_lengths_differ("DIFFUSETILE"@, "UCSORTHOVIEW"@);
    reveal_strlit("ACAD_LAYOUTSELFREF");
    lemma_lengths_differ("DIFFUSETILE"@, "ACAD_LAYOUTSELFREF"@);
    reveal_strlit("LAYOUTDICT");
    lemma_lengths_differ("DIFFUSETILE"@, "LAYOUTDICT"@);
    reveal_strlit("PLOTSETDICT");
    lemma_differ_at("DIFFUSETILE"@, "PLOTSETDICT"@, 0);
    reveal_strlit("PLOTSTYLNAMDICT");
    lemma_lengths_differ("DIFFUSETILE"@, "PLOTSTYLNAMDICT"@);
    reveal_strlit("PSVPSCALE");
    lemma_lengths_differ("DIFFUSETILE"@, "PSVPSCALE"@);
    reveal_strlit("STYLESHEET");
    lemma_lengths_differ("DIFFUSETILE"@, "STYLESHEET"@);
    reveal_strlit("HYPERLINKBASE");
    lemma_lengths_differ("DIFFUSETILE"@, "HYPERLINKBASE"@);
    reveal_strlit("ADVMATERIAL");
    lemma_differ_at("DIFFUSETILE"@, "ADVMATERIAL"@, 0);
    reveal_strlit("FBXASSET");
    lemma_lengths_differ("DIFFUSETILE"@, "FBXASSET"@);
    reveal_strlit("BUMPTILE");
    lemma_lengths_differ("DIFFUSETILE"@, "BUMPTILE"@);
    law_kind_ignores_case(s, "DIFFUSETILE"@);
}

proof fn lemma_key_64(s: Seq<char>)
    requires
        eq_ci(s, "OPACITYTILE"@),
    ensures
        known_kind_of(s) == KnownXRecordKind::MaterialAsset,
{
    reveal_strlit("OPACITYTILE");
    reveal_strlit("ADSK_XREC_LAYER_ALPHA_OVR");
    lemma_lengths_differ("OPACITYTILE"@, "ADSK_XREC_LAYER_ALPHA_OVR"@);
    reveal_strlit("ADSK_XREC_LAYER_COLOR_OVR");
    lemma_lengths_differ("OPACITYTILE"@, "ADSK_XREC_LAYER_COLOR_OVR"@);
    reveal_strlit("ADSK_XREC_LAYER_LINETYPE_OVR");
    lemma_lengths_differ("OPACITYTILE"@, "ADSK_XREC_LAYER_LINETYPE_OVR"@);
    reveal_strlit("ADSK_XREC_LAYER_LINEWT_OVR");
    lemma_lengths_differ("OPACITYTILE"@, "ADSK_XREC_LAYER_LINEWT_OVR"@);
    reveal_strlit("ADSK_XREC_LAYER_RECONCILED");
    lemma_lengths_differ("OPACITYTILE"@, "ADSK_XREC_LAYER_RECONCILED"@);
    reveal_strlit("ACADLAYERSTATEANNOSCALE");
    lemma_lengths_differ("OPACITYTILE"@, "ACADLAYERSTATEANNOSCALE"@);
    reveal_strlit("ASDK_XREC_ANNOTATION_SCALE_INFO");
    lemma_lengths_differ("OPACITYTILE"@, "ASDK_XREC_ANNOTATION_SCALE_INFO"@);
    reveal_strlit("ASDK_XREC_ANNO_SCALE_INFO");
    lemma_lengths_differ("OPACITYTILE"@, "ASDK_XREC_ANNO_SCALE_INFO"@);
    reveal_strlit("ADSK_XREC_VTR_ANNOSCALE_DATA");
    lemma_lengths_differ("OPACITYTILE"@, "ADSK_XREC_VTR_ANNOSCALE_DATA"@);
    reveal_strlit("ADSK_XREC_SUBDVERTEXTEXCOORDS");
    lemma_lengths_differ("OPACITYTILE"@, "ADSK_XREC_SUBDVERTEXTEXCOORDS"@);
    reveal_strlit("ACAD_XREC_ROUNDTRIP");
    lemma_lengths_differ("OPACITYTILE"@, "ACAD_XREC_ROUNDTRIP"@);
    reveal_strlit("ACAD_MTEXT_RT");
    lemma_lengths_differ("OPACITYTILE"@, "ACAD_MTEXT_RT"@);
    reveal_strlit("ACAD_MTEXT_2008_RT");
    lemma_lengths_differ("OPACITYTILE"@, "ACAD_MTEXT_2008_RT"@);
    reveal_strlit("ACDBHEADERROUNDTRIPXREC");
    lemma_lengths_differ("OPACITYTILE"@, "ACDBHEADERROUNDTRIPXREC"@);
    reveal_strlit("AUXHDRRNDTRIPDATA");
    lemma_lengths_differ("OPACITYTILE"@, "AUXHDRRNDTRIPDATA"@);
    reveal_strlit("ACDB_RECOMPOSE_DATA");
    lemma_lengths_differ("OPACITYTILE"@, "ACDB_RECOMPOSE_DATA"@);
    reveal_strlit("ACAD_ENHANCEDBLOCKHISTORY");
    lemma_lengths_differ("OPACITYTILE"@, "ACAD_ENHANCEDBLOCKHISTORY"@);
    reveal_strlit("ASEBLOCKHIERARCHYINDEXRECORD");
    lemma_lengths_differ("OPACITYTILE"@, "ASEBLOCKHIERARCHYINDEXRECORD"@);
    reveal_strlit("ADSK_XREC_LAYOUTTHUMBNAIL");
    lemma_lengths_differ("OPACITYTILE"@, "ADSK_XREC_LAYOUTTHUMBNAIL"@);
    reveal_strlit("ADSK_XREC_VTRANIMATIONINFO");
    lemma_lengths_differ("OPACITYTILE"@, "ADSK_XREC_VTRANIMATIONINFO"@);
    reveal_strlit("ADSK_XREC_VTRTHUMBNAIL");
    lemma_lengths_differ("OPACITYTILE"@, "ADSK_XREC_VTRTHUMBNAIL"@);
    reveal_strlit("ADSK_XREC_VTRVIEWINFO");
    lemma_lengths_differ("OPACITYTILE"@, "ADSK_XREC_VTRVIEWINFO"@);
    reveal_strlit("ADSK_XREC_PHOTOMETRICLIGHTINFO");
    lemma_lengths_differ("OPACITYTILE"@, "ADSK_XREC_PHOTOMETRICLIGHTINFO"@);
    reveal_strlit("LIGHTINGQUALITY");
    lemma_lengths_differ("OPACITYTILE"@, "LIGHTINGQUALITY"@);
    reveal_strlit("ACAD_LAST_SAVED_VERSION_INFO");
    lemma_lengths_differ("OPACITYTILE"@, "ACAD_LAST_SAVED_VERSION_INFO"@);
    reveal_strlit("ACAD_CIP_PREVIOUS_PRODUCT_INFO");
    lemma_lengths_differ("OPACITYTILE"@, "ACAD_CIP_PREVIOUS_PRODUCT_INFO"@);
    reveal_strlit("DWGPROPS");
    lemma_lengths_differ("OPACITYTILE"@, "DWGPROPS"@);
    reveal_strlit("FINGERPRINTGUID");
    lemma_lengths_differ("OPACITYTILE"@, "FINGERPRINTGUID"@);
    reveal_strlit("ACADDIM");
    lemma_lengths_differ("OPACITYTILE"@, "ACADDIM"@);
    reveal_strlit("DIMSTYLEDATA");
    lemma_lengths_differ("OPACITYTILE"@, "DIMSTYLEDATA"@);
    reveal_strlit("DIMLTEX1");
    lemma_lengths_differ("OPACITYTILE"@, "DIMLTEX1"@);
    reveal_strlit("DIMLTEX2");
    lemma_lengths_differ("OPACITYTILE"@, "DIMLTEX2"@);
    reveal_strlit("DIMLTYPE");
    lemma_lengths_differ("OPACITYTILE"@, "DIMLTYPE"@);
    reveal_strlit("TSTACKALIGN");
    lemma_differ_at("OPACITYTILE"@, "TSTACKALIGN"@, 0);
    reveal_strlit("TSTACKSIZE");
    lemma_lengths_differ("OPACITYTILE"@, "TSTACKSIZE"@);
    reveal_strlit("PUCSBASE");
    lemma_lengths_differ("OPACITYTILE"@, "PUCSBASE"@);
    reveal_strlit("PUCSORGBACK");
    lemma_differ_at("OPACITYTILE"@, "PUCSORGBACK"@, 0);
    reveal_strlit("PUCSORGBOTTOM");
    lemma_lengths_differ("OPACITYTILE"@, "PUCSORGBOTTOM"@);
    reveal_strlit("PUCSORGFRONT");
    lemma_lengths_differ("OPACITYTILE"@, "PUCSORGFRONT"@);
    reveal_strlit("PUCSORGLEFT");
    lemma_differ_at("OPACITYTILE"@, "PUCSORGLEFT"@, 0);
    reveal_strlit("PUCSORGRIGHT");
    lemma_lengths_differ("OPACITYTILE"@, "PUCSORGRIGHT"@);
    reveal_strlit("PUCSORGTOP");
    lemma_lengths_differ("OPACITYTILE"@, "PUCSORGTOP"@);
    reveal_strlit("PUCSORTHOREF");
    lemma_lengths_differ("OPACITYTILE"@, "PUCSORTHOREF"@);
    reveal_strlit("PUCSORTHOVIEW");
    lemma_lengths_differ("OPACITYTILE"@, "PUCSORTHOVIEW"@);
    reveal_strlit("UCSBASE");
    lemma_lengths_differ("OPACITYTILE"@, "UCSBASE"@);
    reveal_strlit("UCSORGBACK");
    lemma_lengths_differ("OPACITYTILE"@, "UCSORGBACK"@);
    reveal_strlit("UCSORGBOTTOM");
    lemma_lengths_differ("OPACITYTILE"@, "UCSORGBOTTOM"@);
    reveal_strlit("UCSORGFRONT");
    lemma_differ_at("OPACITYTILE"@, "UCSORGFRONT"@, 0);
    reveal_strlit("UCSORGLEFT");
    lemma_lengths_differ("OPACITYTILE"@, "UCSORGLEFT"@);
    reveal_strlit("UCSORGRIGHT");
    lemma_differ_at("OPACITYTILE"@, "UCSORGRIGHT"@, 0);
    reveal_strlit("UCSORGTOP");
    lemma_lengths_differ("OPACITYTILE"@, "UCSORGTOP"@);
    reveal_strlit("UCSORTHOREF");
    lemma_differ_at("OPACITYTILE"@, "UCSORTHOREF"@, 0);
    reveal_strlit("UCSORTHOVIEW");
    lemma_lengths_differ("OPACITYTILE"@, "UCSORTHOVIEW"@);
    reveal_strlit("ACAD_LAYOUTSELFREF");
    lemma_lengths_differ("OPACITYTILE"@, "ACAD_LAYOUTSELFREF"@);
    reveal_strlit("LAYOUTDICT");
    lemma_lengths_differ("OPACITYTILE"@, "LAYOUTDICT"@);
    reveal_strlit("PLOTSETDICT");
    lemma_differ_at("OPACITYTILE"@, "PLOTSETDICT"@, 0);
    reveal_strlit("PLOTSTYLNAMDICT");
    lemma_lengths_differ("OPACITYTILE"@, "PLOTSTYLNAMDICT"@);
    reveal_strlit("PSVPSCALE");
    lemma_lengths_differ("OPACITYTILE"@, "PSVPSCALE"@);
    reveal_strlit("STYLESHEET");
    lemma_lengths_differ("OPACITYTILE"@, "STYLESHEET"@);
    reveal_strlit("HYPERLINKBASE");
    lemma_lengths_differ("OPACITYTILE"@, "HYPERLINKBASE"@);
    reveal_strlit("ADVMATERIAL");
    lemma_differ_at("OPACITYTILE"@, "ADVMATERIAL"@, 0);
    reveal_strlit("FBXASSET");
    lemma_lengths_differ("OPACITYTILE"@, "FBXASSET"@);
    reveal_strlit("BUMPTILE");
    lemma_lengths_differ("OPACITYTILE"@, "BUMPTILE"@);
    reveal_strlit("DIFFUSETILE");
    lemma_differ_at("OPACITYTILE"@, "DIFFUSETILE"@, 0);
    law_kind_ignores_case(s, "OPACITYTILE"@);
}

proof fn lemma_key_65(s: Seq<char>)
    requires
        eq_ci(s, "REFLECTIONTILE"@),
    ensures
        known_kind_of(s) == KnownXRecordKind::MaterialAsset,
{
    reveal_strlit("REFLECTIONTILE");
    reveal_strlit("ADSK_XREC_LAYER_ALPHA_OVR");
    lemma_lengths_differ("REFLECTIONTILE"@, "ADSK_XREC_LAYER_ALPHA_OVR"@);
    reveal_strlit("ADSK_XREC_LAYER_COLOR_OVR");
    lemma_lengths_differ("REFLECTIONTILE"@, "ADSK_XREC_LAYER_COLOR_OVR"@);
    reveal_strlit("ADSK_XREC_LAYER_LINETYPE_OVR");
    lemma_lengths_differ("REFLECTIONTILE"@, "ADSK_XREC_LAYER_LINETYPE_OVR"@);
    reveal_strlit("ADSK_XREC_LAYER_LINEWT_OVR");
    lemma_lengths_differ("REFLECTIONTILE"@, "ADSK_XREC_LAYER_LINEWT_OVR"@);
    reveal_strlit("ADSK_XREC_LAYER_RECONCILED");
    lemma_lengths_differ("REFLECTIONTILE"@, "ADSK_XREC_LAYER_RECONCILED"@);
    reveal_strlit("ACADLAYERSTATEANNOSCALE");
    lemma_lengths_differ("REFLECTIONTILE"@, "ACADLAYERSTATEANNOSCALE"@);
    reveal_strlit("ASDK_XREC_ANNOTATION_SCALE_INFO");
    lemma_lengths_differ("REFLECTIONTILE"@, "ASDK_XREC_ANNOTATION_SCALE_INFO"@);
    reveal_strlit("ASDK_XREC_ANNO_SCALE_INFO");
    lemma_lengths_differ("REFLECTIONTILE"@, "ASDK_XREC_ANNO_SCALE_INFO"@);
    reveal_strlit("ADSK_XREC_VTR_ANNOSCALE_DATA");
    lemma_lengths_differ("REFLECTIONTILE"@, "ADSK_XREC_VTR_ANNOSCALE_DATA"@);
    reveal_strlit("ADSK_XREC_SUBDVERTEXTEXCOORDS");
    lemma_lengths_differ("REFLECTIONTILE"@, "ADSK_XREC_SUBDVERTEXTEXCOORDS"@);
    reveal_strlit("ACAD_XREC_ROUNDTRIP");
    lemma_lengths_differ("REFLECTIONTILE"@, "ACAD_XREC_ROUNDTRIP"@);
    reveal_strlit("ACAD_MTEXT_RT");
    lemma_lengths_differ("REFLECTIONTILE"@, "ACAD_MTEXT_RT"@);
    reveal_strlit("ACAD_MTEXT_2008_RT");
    lemma_lengths_differ("REFLECTIONTILE"@, "ACAD_MTEXT_2008_RT"@);
    reveal_strlit("ACDBHEADERROUNDTRIPXREC");
    lemma_lengths_differ("REFLECTIONTILE"@, "ACDBHEADERROUNDTRIPXREC"@);
    reveal_strlit("AUXHDRRNDTRIPDATA");
    lemma_lengths_differ("REFLECTIONTILE"@, "AUXHDRRNDTRIPDATA"@);
    reveal_strlit("ACDB_RECOMPOSE_DATA");
    lemma_lengths_differ("REFLECTIONTILE"@, "ACDB_RECOMPOSE_DATA"@);
    reveal_strlit("ACAD_ENHANCEDBLOCKHISTORY");
    lemma_lengths_differ("REFLECTIONTILE"@, "ACAD_ENHANCEDBLOCKHISTORY"@);
    reveal_strlit("ASEBLOCKHIERARCHYINDEXRECORD");
    lemma_lengths_differ("REFLECTIONTILE"@, "ASEBLOCKHIERARCHYINDEXRECORD"@);
    reveal_strlit("ADSK_XREC_LAYOUTTHUMBNAIL");
    lemma_lengths_differ("REFLECTIONTILE"@, "ADSK_XREC_LAYOUTTHUMBNAIL"@);
    reveal_strlit("ADSK_XREC_VTRANIMATIONINFO");
    lemma_lengths_differ("REFLECTIONTILE"@, "ADSK_XREC_VTRANIMATIONINFO"@);
    reveal_strlit("ADSK_XREC_VTRTHUMBNAIL");
    lemma_lengths_differ("REFLECTIONTILE"@, "ADSK_XREC_VTRTHUMBNAIL"@);
    reveal_strlit("ADSK_XREC_VTRVIEWINFO");
    lemma_lengths_differ("REFLECTIONTILE"@, "ADSK_XREC_VTRVIEWINFO"@);
    reveal_strlit("ADSK_XREC_PHOTOMETRICLIGHTINFO");
    lemma_lengths_differ("REFLECTIONTILE"@, "ADSK_XREC_PHOTOMETRICLIGHTINFO"@);
    reveal_strlit("LIGHTINGQUALITY");
    lemma_lengths_differ("REFLECTIONTILE"@, "LIGHTINGQUALITY"@);
    reveal_strlit("ACAD_LAST_SAVED_VERSION_INFO");
    lemma_lengths_differ("REFLECTIONTILE"@, "ACAD_LAST_SAVED_VERSION_INFO"@);
    reveal_strlit("ACAD_CIP_PREVIOUS_PRODUCT_INFO");
    lemma_lengths_differ("REFLECTIONTILE"@, "ACAD_CIP_PREVIOUS_PRODUCT_INFO"@);
    reveal_strlit("DWGPROPS");
    lemma_lengths_differ("REFLECTIONTILE"@, "DWGPROPS"@);
    reveal_strlit("FINGERPRINTGUID");
    lemma_lengths_differ("REFLECTIONTILE"@, "FINGERPRINTGUID"@);
    reveal_strlit("ACADDIM");
    lemma_lengths_differ("REFLECTIONTILE"@, "ACADDIM"@);
    reveal_strlit("DIMSTYLEDATA");
    lemma_lengths_differ("REFLECTIONTILE"@, "DIMSTYLEDATA"@);
    reveal_strlit("DIMLTEX1");
    lemma_lengths_differ("REFLECTIONTILE"@, "DIMLTEX1"@);
    reveal_strlit("DIMLTEX2");
    lemma_lengths_differ("REFLECTIONTILE"@, "DIMLTEX2"@);
    reveal_strlit("DIMLTYPE");
    lemma_lengths_differ("REFLECTIONTILE"@, "DIMLTYPE"@);
    reveal_strlit("TSTACKALIGN");
    lemma_lengths_differ("REFLECTIONTILE"@, "TSTACKALIGN"@);
    reveal_strlit("TSTACKSIZE");
    lemma_lengths_differ("REFLECTIONTILE"@, "TSTACKSIZE"@);
    reveal_strlit("PUCSBASE");
    lemma_lengths_differ("REFLECTIONTILE"@, "PUCSBASE"@);
    reveal_strlit("PUCSORGBACK");
    lemma_lengths_differ("REFLECTIONTILE"@, "PUCSORGBACK"@);
    reveal_strlit("PUCSORGBOTTOM");
    lemma_lengths_differ("REFLECTIONTILE"@, "PUCSORGBOTTOM"@);
    reveal_strlit("PUCSORGFRONT");
    lemma_lengths_differ("REFLECTIONTILE"@, "PUCSORGFRONT"@);
    reveal_strlit("PUCSORGLEFT");
    lemma_lengths_differ("REFLECTIONTILE"@, "PUCSORGLEFT"@);
    reveal_strlit("PUCSORGRIGHT");
    lemma_lengths_differ("REFLECTIONTILE"@, "PUCSORGRIGHT"@);
    reveal_strlit("PUCSORGTOP");
    lemma_lengths_differ("REFLECTIONTILE"@, "PUCSORGTOP"@);
    reveal_strlit("PUCSORTHOREF");
    lemma_lengths_differ("REFLECTIONTILE"@, "PUCSORTHOREF"@);
    reveal_strlit("PUCSORTHOVIEW");
    lemma_lengths_differ("REFLECTIONTILE"@, "PUCSORTHOVIEW"@);
    reveal_strlit("UCSBASE");
    lemma_lengths_differ("REFLECTIONTILE"@, "UCSBASE"@);
    reveal_strlit("UCSORGBACK");
    lemma_lengths_differ("REFLECTIONTILE"@, "UCSORGBACK"@);
    reveal_strlit("UCSORGBOTTOM");
    lemma_lengths_differ("REFLECTIONTILE"@, "UCSORGBOTTOM"@);
    reveal_strlit("UCSORGFRONT");
    lemma_lengths_differ("REFLECTIONTILE"@, "UCSORGFRONT"@);
    reveal_strlit("UCSORGLEFT");
    lemma_lengths_differ("REFLECTIONTILE"@, "UCSORGLEFT"@);
    reveal_strlit("UCSORGRIGHT");
    lemma_lengths_differ("REFLECTIONTILE"@, "UCSORGRIGHT"@);
    reveal_strlit("UCSORGTOP");
    lemma_lengths_differ("REFLECTIONTILE"@, "UCSORGTOP"@);
    reveal_strlit("UCSORTHOREF");
    lemma_lengths_differ("REFLECTIONTILE"@, "UCSORTHOREF"@);
    reveal_strlit("UCSORTHOVIEW");
    lemma_lengths_differ("REFLECTIONTILE"@, "UCSORTHOVIEW"@);
    reveal_strlit("ACAD_LAYOUTSELFREF");
    lemma_lengths_differ("REFLECTIONTILE"@, "ACAD_LAYOUTSELFREF"@);
    reveal_strlit("LAYOUTDICT");
    lemma_lengths_differ("REFLECTIONTILE"@, "LAYOUTDICT"@);
    reveal_strlit("PLOTSETDICT");
    lemma_lengths_differ("REFLECTIONTILE"@, "PLOTSETDICT"@);
    reveal_strlit("PLOTSTYLNAMDICT");
    lemma_lengths_differ("REFLECTIONTILE"@, "PLOTSTYLNAMDICT"@);
    reveal_strlit("PSVPSCALE");
    lemma_lengths_differ("REFLECTIONTILE"@, "PSVPSCALE"@);
    reveal_strlit("STYLESHEET");
    lemma_lengths_differ("REFLECTIONTILE"@, "STYLESHEET"@);
    reveal_strlit("HYPERLINKBASE");
    lemma_lengths_differ("REFLECTIONTILE"@, "HYPERLINKBASE"@);
    reveal_strlit("ADVMATERIAL");
    lemma_lengths_differ("REFLECTIONTILE"@, "ADVMATERIAL"@);
    reveal_strlit("FBXASSET");
    lemma_lengths_differ("REFLECTIONTILE"@, "FBXASSET"@);
    reveal_strlit("BUMPTILE");
    lemma_lengths_differ("REFLECTIONTILE"@, "BUMPTILE"@);
    reveal_strlit("DIFFUSETILE");
    lemma_lengths_differ("REFLECTIONTILE"@, "DIFFUSETILE"@);
    reveal_strlit("OPACITYTILE");
    lemma_lengths_differ("REFLECTIONTILE"@, "OPACITYTILE"@);
    law_kind_ignores_case(s, "REFLECTIONTILE"@);
}

proof fn lemma_key_66(s: Seq<char>)
    requires
        eq_ci(s, "REFRACTIONTILE"@),
    ensures
        known_kind_of(s) == KnownXRecordKind::MaterialAsset,
{
    reveal_strlit("REFRACTIONTILE");
    reveal_strlit("ADSK_XREC_LAYER_ALPHA_OVR");
    lemma_lengths_differ("REFRACTIONTILE"@, "ADSK_XREC_LAYER_ALPHA_OVR"@);
    reveal_strlit("ADSK_XREC_LAYER_COLOR_OVR");
    lemma_lengths_differ("REFRACTIONTILE"@, "ADSK_XREC_LAYER_COLOR_OVR"@);
    reveal_strlit("ADSK_XREC_LAYER_LINETYPE_OVR");
    lemma_lengths_differ("REFRACTIONTILE"@, "ADSK_XREC_LAYER_LINETYPE_OVR"@);
    reveal_strlit("ADSK_XREC_LAYER_LINEWT_OVR");
    lemma_lengths_differ("REFRACTIONTILE"@, "ADSK_XREC_LAYER_LINEWT_OVR"@);
    reveal_strlit("ADSK_XREC_LAYER_RECONCILED");
    lemma_lengths_differ("REFRACTIONTILE"@, "ADSK_XREC_LAYER_RECONCILED"@);
    reveal_strlit("ACADLAYERSTATEANNOSCALE");
    lemma_lengths_differ("REFRACTIONTILE"@, "ACADLAYERSTATEANNOSCALE"@);
    reveal_strlit("ASDK_XREC_ANNOTATION_SCALE_INFO");
    lemma_lengths_differ("REFRACTIONTILE"@, "ASDK_XREC_ANNOTATION_SCALE_INFO"@);
    reveal_strlit("ASDK_XREC_ANNO_SCALE_INFO");
    lemma_lengths_differ("REFRACTIONTILE"@, "ASDK_XREC_ANNO_SCALE_INFO"@);
    reveal_strlit("ADSK_XREC_VTR_ANNOSCALE_DATA");
    lemma_lengths_differ("REFRACTIONTILE"@, "ADSK_XREC_VTR_ANNOSCALE_DATA"@);
    reveal_strlit("ADSK_XREC_SUBDVERTEXTEXCOORDS");
    lemma_lengths_differ("REFRACTIONTILE"@, "ADSK_XREC_SUBDVERTEXTEXCOORDS"@);
    reveal_strlit("ACAD_XREC_ROUNDTRIP");
    lemma_lengths_differ("REFRACTIONTILE"@, "ACAD_XREC_ROUNDTRIP"@);
    reveal_strlit("ACAD_MTEXT_RT");
    lemma_lengths_differ("REFRACTIONTILE"@, "ACAD_MTEXT_RT"@);
    reveal_strlit("ACAD_MTEXT_2008_RT");
    lemma_lengths_differ("REFRACTIONTILE"@, "ACAD_MTEXT_2008_RT"@);
    reveal_strlit("ACDBHEADERROUNDTRIPXREC");
    lemma_lengths_differ("REFRACTIONTILE"@, "ACDBHEADERROUNDTRIPXREC"@);
    reveal_strlit("AUXHDRRNDTRIPDATA");
    lemma_lengths_differ("REFRACTIONTILE"@, "AUXHDRRNDTRIPDATA"@);
    reveal_strlit("ACDB_RECOMPOSE_DATA");
    lemma_lengths_differ("REFRACTIONTILE"@, "ACDB_RECOMPOSE_DATA"@);
    reveal_strlit("ACAD_ENHANCEDBLOCKHISTORY");
    lemma_lengths_differ("REFRACTIONTILE"@, "ACAD_ENHANCEDBLOCKHISTORY"@);
    reveal_strlit("ASEBLOCKHIERARCHYINDEXRECORD");
    lemma_lengths_differ("REFRACTIONTILE"@, "ASEBLOCKHIERARCHYINDEXRECORD"@);
    reveal_strlit("ADSK_XREC_LAYOUTTHUMBNAIL");
    lemma_lengths_differ("REFRACTIONTILE"@, "ADSK_XREC_LAYOUTTHUMBNAIL"@);
    reveal_strlit("ADSK_XREC_VTRANIMATIONINFO");
    lemma_lengths_differ("REFRACTIONTILE"@, "ADSK_XREC_VTRANIMATIONINFO"@);
    reveal_strlit("ADSK_XREC_VTRTHUMBNAIL");
    lemma_lengths_differ("REFRACTIONTILE"@, "ADSK_XREC_VTRTHUMBNAIL"@);
    reveal_strlit("ADSK_XREC_VTRVIEWINFO");
    lemma_lengths_differ("REFRACTIONTILE"@, "ADSK_XREC_VTRVIEWINFO"@);
    reveal_strlit("ADSK_XREC_PHOTOMETRICLIGHTINFO");
    lemma_lengths_differ("REFRACTIONTILE"@, "ADSK_XREC_PHOTOMETRICLIGHTINFO"@);
    reveal_strlit("LIGHTINGQUALITY");
    lemma_lengths_differ("REFRACTIONTILE"@, "LIGHTINGQUALITY"@);
    reveal_strlit("ACAD_LAST_SAVED_VERSION_INFO");
    lemma_lengths_differ("REFRACTIONTILE"@, "ACAD_LAST_SAVED_VERSION_INFO"@);
    reveal_strlit("ACAD_CIP_PREVIOUS_PRODUCT_INFO");
    lemma_lengths_differ("REFRACTIONTILE"@, "ACAD_CIP_PREVIOUS_PRODUCT_INFO"@);
    reveal_strlit("DWGPROPS");
    lemma_lengths_differ("REFRACTIONTILE"@, "DWGPROPS"@);
    reveal_strlit("FINGERPRINTGUID");
    lemma_lengths_differ("REFRACTIONTILE"@, "FINGERPRINTGUID"@);
    reveal_strlit("ACADDIM");
    lemma_lengths_differ("REFRACTIONTILE"@, "ACADDIM"@);
    reveal_strlit("DIMSTYLEDATA");
    lemma_lengths_differ("REFRACTIONTILE"@, "DIMSTYLEDATA"@);
    reveal_strlit("DIMLTEX1");
    lemma_lengths_differ("REFRACTIONTILE"@, "DIMLTEX1"@);
    reveal_strlit("DIMLTEX2");
    lemma_lengths_differ("REFRACTIONTILE"@, "DIMLTEX2"@);
    reveal_strlit("DIMLTYPE");
    lemma_lengths_differ("REFRACTIONTILE"@, "DIMLTYPE"@);
    reveal_strlit("TSTACKALIGN");
    lemma_lengths_differ("REFRACTIONTILE"@, "TSTACKALIGN"@);
    reveal_strlit("TSTACKSIZE");
    lemma_lengths_differ("REFRACTIONTILE"@, "TSTACKSIZE"@);
    reveal_strlit("PUCSBASE");
    lemma_lengths_differ("REFRACTIONTILE"@, "PUCSBASE"@);
    reveal_strlit("PUCSORGBACK");
    lemma_lengths_differ("REFRACTIONTILE"@, "PUCSORGBACK"@);
    reveal_strlit("PUCSORGBOTTOM");
    lemma_lengths_differ("REFRACTIONTILE"@, "PUCSORGBOTTOM"@);
    reveal_strlit("PUCSORGFRONT");
    lemma_lengths_differ("REFRACTIONTILE"@, "PUCSORGFRONT"@);
    reveal_strlit("PUCSORGLEFT");
    lemma_lengths_differ("REFRACTIONTILE"@, "PUCSORGLEFT"@);
    reveal_strlit("PUCSORGRIGHT");
    lemma_lengths_differ("REFRACTIONTILE"@, "PUCSORGRIGHT"@);
    reveal_strlit("PUCSORGTOP");
    lemma_lengths_differ("REFRACTIONTILE"@, "PUCSORGTOP"@);
    reveal_strlit("PUCSORTHOREF");
    lemma_lengths_differ("REFRACTIONTILE"@, "PUCSORTHOREF"@);
    reveal_strlit("PUCSORTHOVIEW");
    lemma_lengths_differ("REFRACTIONTILE"@, "PUCSORTHOVIEW"@);
    reveal_strlit("UCSBASE");
    lemma_lengths_differ("REFRACTIONTILE"@, "UCSBASE"@);
    reveal_strlit("UCSORGBACK");
    lemma_lengths_differ("REFRACTIONTILE"@, "UCSORGBACK"@);
    reveal_strlit("UCSORGBOTTOM");
    lemma_lengths_differ("REFRACTIONTILE"@, "UCSORGBOTTOM"@);
    reveal_strlit("UCSORGFRONT");
    lemma_lengths_differ("REFRACTIONTILE"@, "UCSORGFRONT"@);
    reveal_strlit("UCSORGLEFT");
    lemma_lengths_differ("REFRACTIONTILE"@, "UCSORGLEFT"@);
    reveal_strlit("UCSORGRIGHT");
    lemma_lengths_differ("REFRACTIONTILE"@, "UCSORGRIGHT"@);
    reveal_strlit("UCSORGTOP");
    lemma_lengths_differ("REFRACTIONTILE"@, "UCSORGTOP"@);
    reveal_strlit("UCSORTHOREF");
    lemma_lengths_differ("REFRACTIONTILE"@, "UCSORTHOREF"@);
    reveal_strlit("UCSORTHOVIEW");
    lemma_lengths_differ("REFRACTIONTILE"@, "UCSORTHOVIEW"@);
    reveal_strlit("ACAD_LAYOUTSELFREF");
    lemma_lengths_differ("REFRACTIONTILE"@, "ACAD_LAYOUTSELFREF"@);
    reveal_strlit("LAYOUTDICT");
    lemma_lengths_differ("REFRACTIONTILE"@, "LAYOUTDICT"@);
    reveal_strlit("PLOTSETDICT");
    lemma_lengths_differ("REFRACTIONTILE"@, "PLOTSETDICT"@);
    reveal_strlit("PLOTSTYLNAMDICT");
    lemma_lengths_differ("REFRACTIONTILE"@, "PLOTSTYLNAMDICT"@);
    reveal_strlit("PSVPSCALE");
    lemma_lengths_differ("REFRACTIONTILE"@, "PSVPSCALE"@);
    reveal_strlit("STYLESHEET");
    lemma_lengths_differ("REFRACTIONTILE"@, "STYLESHEET"@);
    reveal_strlit("HYPERLINKBASE");
    lemma_lengths_differ("REFRACTIONTILE"@, "HYPERLINKBASE"@);
    reveal_strlit("ADVMATERIAL");
    lemma_lengths_differ("REFRACTIONTILE"@, "ADVMATERIAL"@);
    reveal_strlit("FBXASSET");
    lemma_lengths_differ("REFRACTIONTILE"@, "FBXASSET"@);
    reveal_strlit("BUMPTILE");
    lemma_lengths_differ("REFRACTIONTILE"@, "BUMPTILE"@);
    reveal_strlit("DIFFUSETILE");
    lemma_lengths_differ("REFRACTIONTILE"@, "DIFFUSETILE"@);
    reveal_strlit("OPACITYTILE");
    lemma_lengths_differ("REFRACTIONTILE"@, "OPACITYTILE"@);
    reveal_strlit("REFLECTIONTILE");
    lemma_differ_at("REFRACTIONTILE"@, "REFLECTIONTILE"@, 3);
    law_kind_ignores_case(s, "REFRACTIONTILE"@);
}

proof fn lemma_key_67(s: Seq<char>)
    requires
        eq_ci(s, "SPECULARTILE"@),
    ensures
        known_kind_of(s) == KnownXRecordKind::MaterialAsset,
{
    reveal_strlit("SPECULARTILE");
    reveal_strlit("ADSK_XREC_LAYER_ALPHA_OVR");
    lemma_lengths_differ("SPECULARTILE"@, "ADSK_XREC_LAYER_ALPHA_OVR"@);
    reveal_strlit("ADSK_XREC_LAYER_COLOR_OVR");
    lemma_lengths_differ("SPECULARTILE"@, "ADSK_XREC_LAYER_COLOR_OVR"@);
    reveal_strlit("ADSK_XREC_LAYER_LINETYPE_OVR");
    lemma_lengths_differ("SPECULARTILE"@, "ADSK_XREC_LAYER_LINETYPE_OVR"@);
    reveal_strlit("ADSK_XREC_LAYER_LINEWT_OVR");
    lemma_lengths_differ("SPECULARTILE"@, "ADSK_XREC_LAYER_LINEWT_OVR"@);
    reveal_strlit("ADSK_XREC_LAYER_RECONCILED");
    lemma_lengths_differ("SPECULARTILE"@, "ADSK_XREC_LAYER_RECONCILED"@);
    reveal_strlit("ACADLAYERSTATEANNOSCALE");
    lemma_lengths_differ("SPECULARTILE"@, "ACADLAYERSTATEANNOSCALE"@);
    reveal_strlit("ASDK_XREC_ANNOTATION_SCALE_INFO");
    lemma_lengths_differ("SPECULARTILE"@, "ASDK_XREC_ANNOTATION_SCALE_INFO"@);
    reveal_strlit("ASDK_XREC_ANNO_SCALE_INFO");
    lemma_lengths_differ("SPECULARTILE"@, "ASDK_XREC_ANNO_SCALE_INFO"@);
    reveal_strlit("ADSK_XREC_VTR_ANNOSCALE_DATA");
    lemma_lengths_differ("SPECULARTILE"@, "ADSK_XREC_VTR_ANNOSCALE_DATA"@);
    reveal_strlit("ADSK_XREC_SUBDVERTEXTEXCOORDS");
    lemma_lengths_differ("SPECULARTILE"@, "ADSK_XREC_SUBDVERTEXTEXCOORDS"@);
    reveal_strlit("ACAD_XREC_ROUNDTRIP");
    lemma_lengths_differ("SPECULARTILE"@, "ACAD_XREC_ROUNDTRIP"@);
    reveal_strlit("ACAD_MTEXT_RT");
    lemma_lengths_differ("SPECULARTILE"@, "ACAD_MTEXT_RT"@);
    reveal_strlit("ACAD_MTEXT_2008_RT");
    lemma_lengths_differ("SPECULARTILE"@, "ACAD_MTEXT_2008_RT"@);
    reveal_strlit("ACDBHEADERROUNDTRIPXREC");
    lemma_lengths_differ("SPECULARTILE"@, "ACDBHEADERROUNDTRIPXREC"@);
    reveal_strlit("AUXHDRRNDTRIPDATA");
    lemma_lengths_differ("SPECULARTILE"@, "AUXHDRRNDTRIPDATA"@);
    reveal_strlit("ACDB_RECOMPOSE_DATA");
    lemma_lengths_differ("SPECULARTILE"@, "ACDB_RECOMPOSE_DATA"@);
    reveal_strlit("ACAD_ENHANCEDBLOCKHISTORY");
    lemma_lengths_differ("SPECULARTILE"@, "ACAD_ENHANCEDBLOCKHISTORY"@);
    reveal_strlit("ASEBLOCKHIERARCHYINDEXRECORD");
    lemma_lengths_differ("SPECULARTILE"@, "ASEBLOCKHIERARCHYINDEXRECORD"@);
    reveal_strlit("ADSK_XREC_LAYOUTTHUMBNAIL");
    lemma_lengths_differ("SPECULARTILE"@, "ADSK_XREC_LAYOUTTHUMBNAIL"@);
    reveal_strlit("ADSK_XREC_VTRANIMATIONINFO");
    lemma_lengths_differ("SPECULARTILE"@, "ADSK_XREC_VTRANIMATIONINFO"@);
    reveal_strlit("ADSK_XREC_VTRTHUMBNAIL");
    lemma_lengths_differ("SPECULARTILE"@, "ADSK_XREC_VTRTHUMBNAIL"@);
    reveal_strlit("ADSK_XREC_VTRVIEWINFO");
    lemma_lengths_differ("SPECULARTILE"@, "ADSK_XREC_VTRVIEWINFO"@);
    reveal_strlit("ADSK_XREC_PHOTOMETRICLIGHTINFO");
    lemma_lengths_differ("SPECULARTILE"@, "ADSK_XREC_PHOTOMETRICLIGHTINFO"@);
    reveal_strlit("LIGHTINGQUALITY");
    lemma_lengths_differ("SPECULARTILE"@, "LIGHTINGQUALITY"@);
    reveal_strlit("ACAD_LAST_SAVED_VERSION_INFO");
    lemma_lengths_differ("SPECULARTILE"@, "ACAD_LAST_SAVED_VERSION_INFO"@);
    reveal_strlit("ACAD_CIP_PREVIOUS_PRODUCT_INFO");
    lemma_lengths_differ("SPECULARTILE"@, "ACAD_CIP_PREVIOUS_PRODUCT_INFO"@);
    reveal_strlit("DWGPROPS");
    lemma_lengths_differ("SPECULARTILE"@, "DWGPROPS"@);
    reveal_strlit("FINGERPRINTGUID");
    lemma_lengths_differ("SPECULARTILE"@, "FINGERPRINTGUID"@);
    reveal_strlit("ACADDIM");
    lemma_lengths_differ("SPECULARTILE"@, "ACADDIM"@);
    reveal_strlit("DIMSTYLEDATA");
    lemma_differ_at("SPECULARTILE"@, "DIMSTYLEDATA"@, 0);
    reveal_strlit("DIMLTEX1");
    lemma_lengths_differ("SPECULARTILE"@, "DIMLTEX1"@);
    reveal_strlit("DIMLTEX2");
    lemma_lengths_differ("SPECULARTILE"@, "DIMLTEX2"@);
    reveal_strlit("DIMLTYPE");
    lemma_lengths_differ("SPECULARTILE"@, "DIMLTYPE"@);
    reveal_strlit("TSTACKALIGN");
    lemma_lengths_differ("SPECULARTILE"@, "TSTACKALIGN"@);
    reveal_strlit("TSTACKSIZE");
    lemma_lengths_differ("SPECULARTILE"@, "TSTACKSIZE"@);
    reveal_strlit("PUCSBASE");
    lemma_lengths_differ("SPECULARTILE"@, "PUCSBASE"@);
    reveal_strlit("PUCSORGBACK");
    lemma_lengths_differ("SPECULARTILE"@, "PUCSORGBACK"@);
    reveal_strlit("PUCSORGBOTTOM");
    lemma_lengths_differ("SPECULARTILE"@, "PUCSORGBOTTOM"@);
    reveal_strlit("PUCSORGFRONT");
    lemma_differ_at("SPECULARTILE"@, "PUCSORGFRONT"@, 0);
    reveal_strlit("PUCSORGLEFT");
    lemma_lengths_differ("SPECULARTILE"@, "PUCSORGLEFT"@);
    reveal_strlit("PUCSORGRIGHT");
    lemma_differ_at("SPECULARTILE"@, "PUCSORGRIGHT"@, 0);
    reveal_strlit("PUCSORGTOP");
    lemma_lengths_differ("SPECULARTILE"@, "PUCSORGTOP"@);
    reveal_strlit("PUCSORTHOREF");
    lemma_differ_at("SPECULARTILE"@, "PUCSORTHOREF"@, 0);
    reveal_strlit("PUCSORTHOVIEW");
    lemma_lengths_differ("SPECULARTILE"@, "PUCSORTHOVIEW"@);
    reveal_strlit("UCSBASE");
    lemma_lengths_differ("SPECULARTILE"@, "UCSBASE"@);
    reveal_strlit("UCSORGBACK");
    lemma_lengths_differ("SPECULARTILE"@, "UCSORGBACK"@);
    reveal_strlit("UCSORGBOTTOM");
    lemma_differ_at("SPECULARTILE"@, "UCSORGBOTTOM"@, 0);
    reveal_strlit("UCSORGFRONT");
    lemma_lengths_differ("SPECULARTILE"@, "UCSORGFRONT"@);
    reveal_strlit("UCSORGLEFT");
    lemma_lengths_differ("SPECULARTILE"@, "UCSORGLEFT"@);
    reveal_strlit("UCSORGRIGHT");
    lemma_lengths_differ("SPECULARTILE"@, "UCSORGRIGHT"@);
    reveal_strlit("UCSORGTOP");
    lemma_lengths_differ("SPECULARTILE"@, "UCSORGTOP"@);
    reveal_strlit("UCSORTHOREF");
    lemma_lengths_differ("SPECULARTILE"@, "UCSORTHOREF"@);
    reveal_strlit("UCSORTHOVIEW");
    lemma_differ_at("SPECULARTILE"@, "UCSORTHOVIEW"@, 0);
    reveal_strlit("ACAD_LAYOUTSELFREF");
    lemma_lengths_differ("SPECULARTILE"@, "ACAD_LAYOUTSELFREF"@);
    reveal_strlit("LAYOUTDICT");
    lemma_lengths_differ("SPECULARTILE"@, "LAYOUTDICT"@);
    reveal_strlit("PLOTSETDICT");
    lemma_lengths_differ("SPECULARTILE"@, "PLOTSETDICT"@);
    reveal_strlit("PLOTSTYLNAMDICT");
    lemma_lengths_differ("SPECULARTILE"@, "PLOTSTYLNAMDICT"@);
    reveal_strlit("PSVPSCALE");
    lemma_lengths_differ("SPECULARTILE"@, "PSVPSCALE"@);
    reveal_strlit("STYLESHEET");
    lemma_lengths_differ("SPECULARTILE"@, "STYLESHEET"@);
    reveal_strlit("HYPERLINKBASE");
    lemma_lengths_differ("SPECULARTILE"@, "HYPERLINKBASE"@);
    reveal_strlit("ADVMATERIAL");
    lemma_lengths_differ("SPECULARTILE"@, "ADVMATERIAL"@);
    reveal_strlit("FBXASSET");
    lemma_lengths_differ("SPECULARTILE"@, "FBXASSET"@);
    reveal_strlit("BUMPTILE");
    lemma_lengths_differ("SPECULARTILE"@, "BUMPTILE"@);
    reveal_strlit("DIFFUSETILE");
    lemma_lengths_differ("SPECULARTILE"@, "DIFFUSETILE"@);
    reveal_strlit("OPACITYTILE");
    lemma_lengths_differ("SPECULARTILE"@, "OPACITYTILE"@);
    reveal_strlit("REFLECTIONTILE");
    lemma_lengths_differ("SPECULARTILE"@, "REFLECTIONTILE"@);
    reveal_strlit("REFRACTIONTILE");
    lemma_lengths_differ("SPECULARTILE"@, "REFRACTIONTILE"@);
    law_kind_ignores_case(s, "SPECULARTILE"@);
}

proof fn lemma_key_68(s: Seq<char>)
    requires
        eq_ci(s, "BUMP"@),
    ensures
        known_kind_of(s) == KnownXRecordKind::MaterialAsset,
{
    reveal_strlit("BUMP");
    reveal_strlit("ADSK_XREC_LAYER_ALPHA_OVR");
    lemma_lengths_differ("BUMP"@, "ADSK_XREC_LAYER_ALPHA_OVR"@);
    reveal_strlit("ADSK_XREC_LAYER_COLOR_OVR");
    lemma_lengths_differ("BUMP"@, "ADSK_XREC_LAYER_COLOR_OVR"@);
    reveal_strlit("ADSK_XREC_LAYER_LINETYPE_OVR");
    lemma_lengths_differ("BUMP"@, "ADSK_XREC_LAYER_LINETYPE_OVR"@);
    reveal_strlit("ADSK_XREC_LAYER_LINEWT_OVR");
    lemma_lengths_differ("BUMP"@, "ADSK_XREC_LAYER_LINEWT_OVR"@);
    reveal_strlit("ADSK_XREC_LAYER_RECONCILED");
    lemma_lengths_differ("BUMP"@, "ADSK_XREC_LAYER_RECONCILED"@);
    reveal_strlit("ACADLAYERSTATEANNOSCALE");
    lemma_lengths_differ("BUMP"@, "ACADLAYERSTATEANNOSCALE"@);
    reveal_strlit("ASDK_XREC_ANNOTATION_SCALE_INFO");
    lemma_lengths_differ("BUMP"@, "ASDK_XREC_ANNOTATION_SCALE_INFO"@);
    reveal_strlit("ASDK_XREC_ANNO_SCALE_INFO");
    lemma_lengths_differ("BUMP"@, "ASDK_XREC_ANNO_SCALE_INFO"@);
    reveal_strlit("ADSK_XREC_VTR_ANNOSCALE_DATA");
    lemma_lengths_differ("BUMP"@, "ADSK_XREC_VTR_ANNOSCALE_DATA"@);
    reveal_strlit("ADSK_XREC_SUBDVERTEXTEXCOORDS");
    lemma_lengths_differ("BUMP"@, "ADSK_XREC_SUBDVERTEXTEXCOORDS"@);
    reveal_strlit("ACAD_XREC_ROUNDTRIP");
    lemma_lengths_differ("BUMP"@, "ACAD_XREC_ROUNDTRIP"@);
    reveal_strlit("ACAD_MTEXT_RT");
    lemma_lengths_differ("BUMP"@, "ACAD_MTEXT_RT"@);
    reveal_strlit("ACAD_MTEXT_2008_RT");
    lemma_lengths_differ("BUMP"@, "ACAD_MTEXT_2008_RT"@);
    reveal_strlit("ACDBHEADERROUNDTRIPXREC");
    lemma_lengths_differ("BUMP"@, "ACDBHEADERROUNDTRIPXREC"@);
    reveal_strlit("AUXHDRRNDTRIPDATA");
    lemma_lengths_differ("BUMP"@, "AUXHDRRNDTRIPDATA"@);
    reveal_strlit("ACDB_RECOMPOSE_DATA");
    lemma_lengths_differ("BUMP"@, "ACDB_RECOMPOSE_DATA"@);
    reveal_strlit("ACAD_ENHANCEDBLOCKHISTORY");
    lemma_lengths_differ("BUMP"@, "ACAD_ENHANCEDBLOCKHISTORY"@);
    reveal_strlit("ASEBLOCKHIERARCHYINDEXRECORD");
    lemma_lengths_differ("BUMP"@, "ASEBLOCKHIERARCHYINDEXRECORD"@);
    reveal_strlit("ADSK_XREC_LAYOUTTHUMBNAIL");
    lemma_lengths_differ("BUMP"@, "ADSK_XREC_LAYOUTTHUMBNAIL"@);
    reveal_strlit("ADSK_XREC_VTRANIMATIONINFO");
    lemma_lengths_differ("BUMP"@, "ADSK_XREC_VTRANIMATIONINFO"@);
    reveal_strlit("ADSK_XREC_VTRTHUMBNAIL");
    lemma_lengths_differ("BUMP"@, "ADSK_XREC_VTRTHUMBNAIL"@);
    reveal_strlit("ADSK_XREC_VTRVIEWINFO");
    lemma_lengths_differ("BUMP"@, "ADSK_XREC_VTRVIEWINFO"@);
    reveal_strlit("ADSK_XREC_PHOTOMETRICLIGHTINFO");
    lemma_lengths_differ("BUMP"@, "ADSK_XREC_PHOTOMETRICLIGHTINFO"@);
    reveal_strlit("LIGHTINGQUALITY");
    lemma_lengths_differ("BUMP"@, "LIGHTINGQUALITY"@);
    reveal_strlit("ACAD_LAST_SAVED_VERSION_INFO");
    lemma_lengths_differ("BUMP"@, "ACAD_LAST_SAVED_VERSION_INFO"@);
    reveal_strlit("ACAD_CIP_PREVIOUS_PRODUCT_INFO");
    lemma_lengths_differ("BUMP"@, "ACAD_CIP_PREVIOUS_PRODUCT_INFO"@);
    reveal_strlit("DWGPROPS");
    lemma_lengths_differ("BUMP"@, "DWGPROPS"@);
    reveal_strlit("FINGERPRINTGUID");
    lemma_lengths_differ("BUMP"@, "FINGERPRINTGUID"@);
    reveal_strlit("ACADDIM");
    lemma_lengths_differ("BUMP"@, "ACADDIM"@);
    reveal_strlit("DIMSTYLEDATA");
    lemma_lengths_differ("BUMP"@, "DIMSTYLEDATA"@);
    reveal_strlit("DIMLTEX1");
    lemma_lengths_differ("BUMP"@, "DIMLTEX1"@);
    reveal_strlit("DIMLTEX2");
    lemma_lengths_differ("BUMP"@, "DIMLTEX2"@);
    reveal_strlit("DIMLTYPE");
    lemma_lengths_differ("BUMP"@, "DIMLTYPE"@);
    reveal_strlit("TSTACKALIGN");
    lemma_lengths_differ("BUMP"@, "TSTACKALIGN"@);
    reveal_strlit("TSTACKSIZE");
    lemma_lengths_differ("BUMP"@, "TSTACKSIZE"@);
    reveal_strlit("PUCSBASE");
    lemma_lengths_differ("BUMP"@, "PUCSBASE"@);
    reveal_strlit("PUCSORGBACK");
    lemma_lengths_differ("BUMP"@, "PUCSORGBACK"@);
    reveal_strlit("PUCSORGBOTTOM");
    lemma_lengths_differ("BUMP"@, "PUCSORGBOTTOM"@);
    reveal_strlit("PUCSORGFRONT");
    lemma_lengths_differ("BUMP"@, "PUCSORGFRONT"@);
    reveal_strlit("PUCSORGLEFT");
    lemma_lengths_differ("BUMP"@, "PUCSORGLEFT"@);
    reveal_strlit("PUCSORGRIGHT");
    lemma_lengths_differ("BUMP"@, "PUCSORGRIGHT"@);
    reveal_strlit("PUCSORGTOP");
    lemma_lengths_differ("BUMP"@, "PUCSORGTOP"@);
    reveal_strlit("PUCSORTHOREF");
    lemma_lengths_differ("BUMP"@, "PUCSORTHOREF"@);
    reveal_strlit("PUCSORTHOVIEW");
    lemma_lengths_differ("BUMP"@, "PUCSORTHOVIEW"@);
    reveal_strlit("UCSBASE");
    lemma_lengths_differ("BUMP"@, "UCSBASE"@);
    reveal_strlit("UCSORGBACK");
    lemma_lengths_differ("BUMP"@, "UCSORGBACK"@);
    reveal_strlit("UCSORGBOTTOM");
    lemma_lengths_differ("BUMP"@, "UCSORGBOTTOM"@);
    reveal_strlit("UCSORGFRONT");
    lemma_lengths_differ("BUMP"@, "UCSORGFRONT"@);
    reveal_strlit("UCSORGLEFT");
    lemma_lengths_differ("BUMP"@, "UCSORGLEFT"@);
    reveal_strlit("UCSORGRIGHT");
    lemma_lengths_differ("BUMP"@, "UCSORGRIGHT"@);
    reveal_strlit("UCSORGTOP");
    lemma_lengths_differ("BUMP"@, "UCSORGTOP"@);
    reveal_strlit("UCSORTHOREF");
    lemma_lengths_differ("BUMP"@, "UCSORTHOREF"@);
    reveal_strlit("UCSORTHOVIEW");
    lemma_lengths_differ("BUMP"@, "UCSORTHOVIEW"@);
    reveal_strlit("ACAD_LAYOUTSELFREF");
    lemma_lengths_differ("BUMP"@, "ACAD_LAYOUTSELFREF"@);
    reveal_strlit("LAYOUTDICT");
    lemma_lengths_differ("BUMP"@, "LAYOUTDICT"@);
    reveal_strlit("PLOTSETDICT");
    lemma_lengths_differ("BUMP"@, "PLOTSETDICT"@);
    reveal_strlit("PLOTSTYLNAMDICT");
    lemma_lengths_differ("BUMP"@, "PLOTSTYLNAMDICT"@);
    reveal_strlit("PSVPSCALE");
    lemma_lengths_differ("BUMP"@, "PSVPSCALE"@);
    reveal_strlit("STYLESHEET");
    lemma_lengths_differ("BUMP"@, "STYLESHEET"@);
    reveal_strlit("HYPERLINKBASE");
    lemma_lengths_differ("BUMP"@, "HYPERLINKBASE"@);
    reveal_strlit("ADVMATERIAL");
    lemma_lengths_differ("BUMP"@, "ADVMATERIAL"@);
    reveal_strlit("FBXASSET");
    lemma_lengths_differ("BUMP"@, "FBXASSET"@);
    reveal_strlit("BUMPTILE");
    lemma_lengths_differ("BUMP"@, "BUMPTILE"@);
    reveal_strlit("DIFFUSETILE");
    lemma_lengths_differ("BUMP"@, "DIFFUSETILE"@);
    reveal_strlit("OPACITYTILE");
    lemma_lengths_differ("BUMP"@, "OPACITYTILE"@);
    reveal_strlit("REFLECTIONTILE");
    lemma_lengths_differ("BUMP"@, "REFLECTIONTILE"@);
    reveal_strlit("REFRACTIONTILE");
    lemma_lengths_differ("BUMP"@, "REFRACTIONTILE"@);
    reveal_strlit("SPECULARTILE");
    lemma_lengths_differ("BUMP"@, "SPECULARTILE"@);
    law_kind_ignores_case(s, "BUMP"@);
}

proof fn lemma_key_69(s: Seq<char>)
    requires
        eq_ci(s, "DIFFUSE"@),
    ensures
        known_kind_of(s) == KnownXRecordKind::MaterialAsset,
{
    reveal_strlit("DIFFUSE");
    reveal_strlit("ADSK_XREC_LAYER_ALPHA_OVR");
    lemma_lengths_differ("DIFFUSE"@, "ADSK_XREC_LAYER_ALPHA_OVR"@);
    reveal_strlit("ADSK_XREC_LAYER_COLOR_OVR");
    lemma_lengths_differ("DIFFUSE"@, "ADSK_XREC_LAYER_COLOR_OVR"@);
    reveal_strlit("ADSK_XREC_LAYER_LINETYPE_OVR");
    lemma_lengths_differ("DIFFUSE"@, "ADSK_XREC_LAYER_LINETYPE_OVR"@);
    reveal_strlit("ADSK_XREC_LAYER_LINEWT_OVR");
    lemma_lengths_differ("DIFFUSE"@, "ADSK_XREC_LAYER_LINEWT_OVR"@);
    reveal_strlit("ADSK_XREC_LAYER_RECONCILED");
    lemma_lengths_differ("DIFFUSE"@, "ADSK_XREC_LAYER_RECONCILED"@);
    reveal_strlit("ACADLAYERSTATEANNOSCALE");
    lemma_lengths_differ("DIFFUSE"@, "ACADLAYERSTATEANNOSCALE"@);
    reveal_strlit("ASDK_XREC_ANNOTATION_SCALE_INFO");
    lemma_lengths_differ("DIFFUSE"@, "ASDK_XREC_ANNOTATION_SCALE_INFO"@);
    reveal_strlit("ASDK_XREC_ANNO_SCALE_INFO");
    lemma_lengths_differ("DIFFUSE"@, "ASDK_XREC_ANNO_SCALE_INFO"@);
    reveal_strlit("ADSK_XREC_VTR_ANNOSCALE_DATA");
    lemma_lengths_differ("DIFFUSE"@, "ADSK_XREC_VTR_ANNOSCALE_DATA"@);
    reveal_strlit("ADSK_XREC_SUBDVERTEXTEXCOORDS");
    lemma_lengths_differ("DIFFUSE"@, "ADSK_XREC_SUBDVERTEXTEXCOORDS"@);
    reveal_strlit("ACAD_XREC_ROUNDTRIP");
    lemma_lengths_differ("DIFFUSE"@, "ACAD_XREC_ROUNDTRIP"@);
    reveal_strlit("ACAD_MTEXT_RT");
    lemma_lengths_differ("DIFFUSE"@, "ACAD_MTEXT_RT"@);
    reveal_strlit("ACAD_MTEXT_2008_RT");
    lemma_lengths_differ("DIFFUSE"@, "ACAD_MTEXT_2008_RT"@);
    reveal_strlit("ACDBHEADERROUNDTRIPXREC");
    lemma_lengths_differ("DIFFUSE"@, "ACDBHEADERROUNDTRIPXREC"@);
    reveal_strlit("AUXHDRRNDTRIPDATA");
    lemma_lengths_differ("DIFFUSE"@, "AUXHDRRNDTRIPDATA"@);
    reveal_strlit("ACDB_RECOMPOSE_DATA");
    lemma_lengths_differ("DIFFUSE"@, "ACDB_RECOMPOSE_DATA"@);
    reveal_strlit("ACAD_ENHANCEDBLOCKHISTORY");
    lemma_lengths_differ("DIFFUSE"@, "ACAD_ENHANCEDBLOCKHISTORY"@);
    reveal_strlit("ASEBLOCKHIERARCHYINDEXRECORD");
    lemma_lengths_differ("DIFFUSE"@, "ASEBLOCKHIERARCHYINDEXRECORD"@);
    reveal_strlit("ADSK_XREC_LAYOUTTHUMBNAIL");
    lemma_lengths_differ("DIFFUSE"@, "ADSK_XREC_LAYOUTTHUMBNAIL"@);
    reveal_strlit("ADSK_XREC_VTRANIMATIONINFO");
    lemma_lengths_differ("DIFFUSE"@, "ADSK_XREC_VTRANIMATIONINFO"@);
    reveal_strlit("ADSK_XREC_VTRTHUMBNAIL");
    lemma_lengths_differ("DIFFUSE"@, "ADSK_XREC_VTRTHUMBNAIL"@);
    reveal_strlit("ADSK_XREC_VTRVIEWINFO");
    lemma_lengths_differ("DIFFUSE"@, "ADSK_XREC_VTRVIEWINFO"@);
    reveal_strlit("ADSK_XREC_PHOTOMETRICLIGHTINFO");
    lemma_lengths_differ("DIFFUSE"@, "ADSK_XREC_PHOTOMETRICLIGHTINFO"@);
    reveal_strlit("LIGHTINGQUALITY");
    lemma_lengths_differ("DIFFUSE"@, "LIGHTINGQUALITY"@);
    reveal_strlit("ACAD_LAST_SAVED_VERSION_INFO");
    lemma_lengths_differ("DIFFUSE"@, "ACAD_LAST_SAVED_VERSION_INFO"@);
    reveal_strlit("ACAD_CIP_PREVIOUS_PRODUCT_INFO");
    lemma_lengths_differ("DIFFUSE"@, "ACAD_CIP_PREVIOUS_PRODUCT_INFO"@);
    reveal_strlit("DWGPROPS");
    lemma_lengths_differ("DIFFUSE"@, "DWGPROPS"@);
    reveal_strlit("FINGERPRINTGUID");
    lemma_lengths_differ("DIFFUSE"@, "FINGERPRINTGUID"@);
    reveal_strlit("ACADDIM");
    lemma_differ_at("DIFFUSE"@, "ACADDIM"@, 0);
    reveal_strlit("DIMSTYLEDATA");
    lemma_lengths_differ("DIFFUSE"@, "DIMSTYLEDATA"@);
    reveal_strlit("DIMLTEX1");
    lemma_lengths_differ("DIFFUSE"@, "DIMLTEX1"@);
    reveal_strlit("DIMLTEX2");
    lemma_lengths_differ("DIFFUSE"@, "DIMLTEX2"@);
    reveal_strlit("DIMLTYPE");
    lemma_lengths_differ("DIFFUSE"@, "DIMLTYPE"@);
    reveal_strlit("TSTACKALIGN");
    lemma_lengths_differ("DIFFUSE"@, "TSTACKALIGN"@);
    reveal_strlit("TSTACKSIZE");
    lemma_lengths_differ("DIFFUSE"@, "TSTACKSIZE"@);
    reveal_strlit("PUCSBASE");
    lemma_lengths_differ("DIFFUSE"@, "PUCSBASE"@);
    reveal_strlit("PUCSORGBACK");
    lemma_lengths_differ("DIFFUSE"@, "PUCSORGBACK"@);
    reveal_strlit("PUCSORGBOTTOM");
    lemma_lengths_differ("DIFFUSE"@, "PUCSORGBOTTOM"@);
    reveal_strlit("PUCSORGFRONT");
    lemma_lengths_differ("DIFFUSE"@, "PUCSORGFRONT"@);
    reveal_strlit("PUCSORGLEFT");
    lemma_lengths_differ("DIFFUSE"@, "PUCSORGLEFT"@);
    reveal_strlit("PUCSORGRIGHT");
    lemma_lengths_differ("DIFFUSE"@, "PUCSORGRIGHT"@);
    reveal_strlit("PUCSORGTOP");
    lemma_lengths_differ("DIFFUSE"@, "PUCSORGTOP"@);
    reveal_strlit("PUCSORTHOREF");
    lemma_lengths_differ("DIFFUSE"@, "PUCSORTHOREF"@);
    reveal_strlit("PUCSORTHOVIEW");
    lemma_lengths_differ("DIFFUSE"@, "PUCSORTHOVIEW"@);
    reveal_strlit("UCSBASE");
    lemma_differ_at("DIFFUSE"@, "UCSBASE"@, 0);
    reveal_strlit("UCSORGBACK");
    lemma_lengths_differ("DIFFUSE"@, "UCSORGBACK"@);
    reveal_strlit("UCSORGBOTTOM");
    lemma_lengths_differ("DIFFUSE"@, "UCSORGBOTTOM"@);
    reveal_strlit("UCSORGFRONT");
    lemma_lengths_differ("DIFFUSE"@, "UCSORGFRONT"@);
    reveal_strlit("UCSORGLEFT");
    lemma_lengths_differ("DIFFUSE"@, "UCSORGLEFT"@);
    reveal_strlit("UCSORGRIGHT");
    lemma_lengths_differ("DIFFUSE"@, "UCSORGRIGHT"@);
    reveal_strlit("UCSORGTOP");
    lemma_lengths_differ("DIFFUSE"@, "UCSORGTOP"@);
    reveal_strlit("UCSORTHOREF");
    lemma_lengths_differ("DIFFUSE"@, "UCSORTHOREF"@);
    reveal_strlit("UCSORTHOVIEW");
    lemma_lengths_differ("DIFFUSE"@, "UCSORTHOVIEW"@);
    reveal_strlit("ACAD_LAYOUTSELFREF");
    lemma_lengths_differ("DIFFUSE"@, "ACAD_LAYOUTSELFREF"@);
    reveal_strlit("LAYOUTDICT");
    lemma_lengths_differ("DIFFUSE"@, "LAYOUTDICT"@);
    reveal_strlit("PLOTSETDICT");
    lemma_lengths_differ("DIFFUSE"@, "PLOTSETDICT"@);
    reveal_strlit("PLOTSTYLNAMDICT");
    lemma_lengths_differ("DIFFUSE"@, "PLOTSTYLNAMDICT"@);
    reveal_strlit("PSVPSCALE");
    lemma_lengths_differ("DIFFUSE"@, "PSVPSCALE"@);
    reveal_strlit("STYLESHEET");
    lemma_lengths_differ("DIFFUSE"@, "STYLESHEET"@);
    reveal_strlit("HYPERLINKBASE");
    lemma_lengths_differ("DIFFUSE"@, "HYPERLINKBASE"@);
    reveal_strlit("ADVMATERIAL");
    lemma_lengths_differ("DIFFUSE"@, "ADVMATERIAL"@);
    reveal_strlit("FBXASSET");
    lemma_lengths_differ("DIFFUSE"@, "FBXASSET"@);
    reveal_strlit("BUMPTILE");
    lemma_lengths_differ("DIFFUSE"@, "BUMPTILE"@);
    reveal_strlit("DIFFUSETILE");
    lemma_lengths_differ("DIFFUSE"@, "DIFFUSETILE"@);
    reveal_strlit("OPACITYTILE");
    lemma_lengths_differ("DIFFUSE"@, "OPACITYTILE"@);
    reveal_strlit("REFLECTIONTILE");
    lemma_lengths_differ("DIFFUSE"@, "REFLECTIONTILE"@);
    reveal_strlit("REFRACTIONTILE");
    lemma_lengths_differ("DIFFUSE"@, "REFRACTIONTILE"@);
    reveal_strlit("SPECULARTILE");
    lemma_lengths_differ("DIFFUSE"@, "SPECULARTILE"@);
    reveal_strlit("BUMP");
    lemma_lengths_differ("DIFFUSE"@, "BUMP"@);
    law_kind_ignores_case(s, "DIFFUSE"@);
}

proof fn lemma_key_70(s: Seq<char>)
    requires
        eq_ci(s, "MATERIALDICT"@),
    ensures
        known_kind_of(s) == KnownXRecordKind::MaterialAsset,
{
    reveal_strlit("MATERIALDICT");
    reveal_strlit("ADSK_XREC_LAYER_ALPHA_OVR");
    lemma_lengths_differ("MATERIALDICT"@, "ADSK_XREC_LAYER_ALPHA_OVR"@);
    reveal_strlit("ADSK_XREC_LAYER_COLOR_OVR");
    lemma_lengths_differ("MATERIALDICT"@, "ADSK_XREC_LAYER_COLOR_OVR"@);
    reveal_strlit("ADSK_XREC_LAYER_LINETYPE_OVR");
    lemma_lengths_differ("MATERIALDICT"@, "ADSK_XREC_LAYER_LINETYPE_OVR"@);
    reveal_strlit("ADSK_XREC_LAYER_LINEWT_OVR");
    lemma_lengths_differ("MATERIALDICT"@, "ADSK_XREC_LAYER_LINEWT_OVR"@);
    reveal_strlit("ADSK_XREC_LAYER_RECONCILED");
    lemma_lengths_differ("MATERIALDICT"@, "ADSK_XREC_LAYER_RECONCILED"@);
    reveal_strlit("ACADLAYERSTATEANNOSCALE");
    lemma_lengths_differ("MATERIALDICT"@, "ACADLAYERSTATEANNOSCALE"@);
    reveal_strlit("ASDK_XREC_ANNOTATION_SCALE_INFO");
    lemma_lengths_differ("MATERIALDICT"@, "ASDK_XREC_ANNOTATION_SCALE_INFO"@);
    reveal_strlit("ASDK_XREC_ANNO_SCALE_INFO");
    lemma_lengths_differ("MATERIALDICT"@, "ASDK_XREC_ANNO_SCALE_INFO"@);
    reveal_strlit("ADSK_XREC_VTR_ANNOSCALE_DATA");
    lemma_lengths_differ("MATERIALDICT"@, "ADSK_XREC_VTR_ANNOSCALE_DATA"@);
    reveal_strlit("ADSK_XREC_SUBDVERTEXTEXCOORDS");
    lemma_lengths_differ("MATERIALDICT"@, "ADSK_XREC_SUBDVERTEXTEXCOORDS"@);
    reveal_strlit("ACAD_XREC_ROUNDTRIP");
    lemma_lengths_differ("MATERIALDICT"@, "ACAD_XREC_ROUNDTRIP"@);
    reveal_strlit("ACAD_MTEXT_RT");
    lemma_lengths_differ("MATERIALDICT"@, "ACAD_MTEXT_RT"@);
    reveal_strlit("ACAD_MTEXT_2008_RT");
    lemma_lengths_differ("MATERIALDICT"@, "ACAD_MTEXT_2008_RT"@);
    reveal_strlit("ACDBHEADERROUNDTRIPXREC");
    lemma_lengths_differ("MATERIALDICT"@, "ACDBHEADERROUNDTRIPXREC"@);
    reveal_strlit("AUXHDRRNDTRIPDATA");
    lemma_lengths_differ("MATERIALDICT"@, "AUXHDRRNDTRIPDATA"@);
    reveal_strlit("ACDB_RECOMPOSE_DATA");
    lemma_lengths_differ("MATERIALDICT"@, "ACDB_RECOMPOSE_DATA"@);
    reveal_strlit("ACAD_ENHANCEDBLOCKHISTORY");
    lemma_lengths_differ("MATERIALDICT"@, "ACAD_ENHANCEDBLOCKHISTORY"@);
    reveal_strlit("ASEBLOCKHIERARCHYINDEXRECORD");
    lemma_lengths_differ("MATERIALDICT"@, "ASEBLOCKHIERARCHYINDEXRECORD"@);
    reveal_strlit("ADSK_XREC_LAYOUTTHUMBNAIL");
    lemma_lengths_differ("MATERIALDICT"@, "ADSK_XREC_LAYOUTTHUMBNAIL"@);
    reveal_strlit("ADSK_XREC_VTRANIMATIONINFO");
    lemma_lengths_differ("MATERIALDICT"@, "ADSK_XREC_VTRANIMATIONINFO"@);
    reveal_strlit("ADSK_XREC_VTRTHUMBNAIL");
    lemma_lengths_differ("MATERIALDICT"@, "ADSK_XREC_VTRTHUMBNAIL"@);
    reveal_strlit("ADSK_XREC_VTRVIEWINFO");
    lemma_lengths_differ("MATERIALDICT"@, "ADSK_XREC_VTRVIEWINFO"@);
    reveal_strlit("ADSK_XREC_PHOTOMETRICLIGHTINFO");
    lemma_lengths_differ("MATERIALDICT"@, "ADSK_XREC_PHOTOMETRICLIGHTINFO"@);
    reveal_strlit("LIGHTINGQUALITY");
    lemma_lengths_differ("MATERIALDICT"@, "LIGHTINGQUALITY"@);
    reveal_strlit("ACAD_LAST_SAVED_VERSION_INFO");
    lemma_lengths_differ("MATERIALDICT"@, "ACAD_LAST_SAVED_VERSION_INFO"@);
    reveal_strlit("ACAD_CIP_PREVIOUS_PRODUCT_INFO");
    lemma_lengths_differ("MATERIALDICT"@, "ACAD_CIP_PREVIOUS_PRODUCT_INFO"@);
    reveal_strlit("DWGPROPS");
    lemma_lengths_differ("MATERIALDICT"@, "DWGPROPS"@);
    reveal_strlit("FINGERPRINTGUID");
    lemma_lengths_differ("MATERIALDICT"@, "FINGERPRINTGUID"@);
    reveal_strlit("ACADDIM");
    lemma_lengths_differ("MATERIALDICT"@, "ACADDIM"@);
    reveal_strlit("DIMSTYLEDATA");
    lemma_differ_at("MATERIALDICT"@, "DIMSTYLEDATA"@, 0);
    reveal_strlit("DIMLTEX1");
    lemma_lengths_differ("MATERIALDICT"@, "DIMLTEX1"@);
    reveal_strlit("DIMLTEX2");
    lemma_lengths_differ("MATERIALDICT"@, "DIMLTEX2"@);
    reveal_strlit("DIMLTYPE");
    lemma_lengths_differ("MATERIALDICT"@, "DIMLTYPE"@);
    reveal_strlit("TSTACKALIGN");
    lemma_lengths_differ("MATERIALDICT"@, "TSTACKALIGN"@);
    reveal_strlit("TSTACKSIZE");
    lemma_lengths_differ("MATERIALDICT"@, "TSTACKSIZE"@);
    reveal_strlit("PUCSBASE");
    lemma_lengths_differ("MATERIALDICT"@, "PUCSBASE"@);
    reveal_strlit("PUCSORGBACK");
    lemma_lengths_differ("MATERIALDICT"@, "PUCSORGBACK"@);
    reveal_strlit("PUCSORGBOTTOM");
    lemma_lengths_differ("MATERIALDICT"@, "PUCSORGBOTTOM"@);
    reveal_strlit("PUCSORGFRONT");
    lemma_differ_at("MATERIALDICT"@, "PUCSORGFRONT"@, 0);
    reveal_strlit("PUCSORGLEFT");
    lemma_lengths_differ("MATERIALDICT"@, "PUCSORGLEFT"@);
    reveal_strlit("PUCSORGRIGHT");
    lemma_differ_at("MATERIALDICT"@, "PUCSORGRIGHT"@, 0);
    reveal_strlit("PUCSORGTOP");
    lemma_lengths_differ("MATERIALDICT"@, "PUCSORGTOP"@);
    reveal_strlit("PUCSORTHOREF");
    lemma_differ_at("MATERIALDICT"@, "PUCSORTHOREF"@, 0);
    reveal_strlit("PUCSORTHOVIEW");
    lemma_lengths_differ("MATERIALDICT"@, "PUCSORTHOVIEW"@);
    reveal_strlit("UCSBASE");
    lemma_lengths_differ("MATERIALDICT"@, "UCSBASE"@);
    reveal_strlit("UCSORGBACK");
    lemma_lengths_differ("MATERIALDICT"@, "UCSORGBACK"@);
    reveal_strlit("UCSORGBOTTOM");
    lemma_differ_at("MATERIALDICT"@, "UCSORGBOTTOM"@, 0);
    reveal_strlit("UCSORGFRONT");
    lemma_lengths_differ("MATERIALDICT"@, "UCSORGFRONT"@);
    reveal_strlit("UCSORGLEFT");
    lemma_lengths_differ("MATERIALDICT"@, "UCSORGLEFT"@);
    reveal_strlit("UCSORGRIGHT");
    lemma_lengths_differ("MATERIALDICT"@, "UCSORGRIGHT"@);
    reveal_strlit("UCSORGTOP");
    lemma_lengths_differ("MATERIALDICT"@, "UCSORGTOP"@);
    reveal_strlit("UCSORTHOREF");
    lemma_lengths_differ("MATERIALDICT"@, "UCSORTHOREF"@);
    reveal_strlit("UCSORTHOVIEW");
    lemma_differ_at("MATERIALDICT"@, "UCSORTHOVIEW"@, 0);
    reveal_strlit("ACAD_LAYOUTSELFREF");
    lemma_lengths_differ("MATERIALDICT"@, "ACAD_LAYOUTSELFREF"@);
    reveal_strlit("LAYOUTDICT");
    lemma_lengths_differ("MATERIALDICT"@, "LAYOUTDICT"@);
    reveal_strlit("PLOTSETDICT");
    lemma_lengths_differ("MATERIALDICT"@, "PLOTSETDICT"@);
    reveal_strlit("PLOTSTYLNAMDICT");
    lemma_lengths_differ("MATERIALDICT"@, "PLOTSTYLNAMDICT"@);
    reveal_strlit("PSVPSCALE");
    lemma_lengths_differ("MATERIALDICT"@, "PSVPSCALE"@);
    reveal_strlit("STYLESHEET");
    lemma_lengths_differ("MATERIALDICT"@, "STYLESHEET"@);
    reveal_strlit("HYPERLINKBASE");
    lemma_lengths_differ("MATERIALDICT"@, "HYPERLINKBASE"@);
    reveal_strlit("ADVMATERIAL");
    lemma_lengths_differ("MATERIALDICT"@, "ADVMATERIAL"@);
    reveal_strlit("FBXASSET");
    lemma_lengths_differ("MATERIALDICT"@, "FBXASSET"@);
    reveal_strlit("BUMPTILE");
    lemma_lengths_differ("MATERIALDICT"@, "BUMPTILE"@);
    reveal_strlit("DIFFUSETILE");
    lemma_lengths_differ("MATERIALDICT"@, "DIFFUSETILE"@);
    reveal_strlit("OPACITYTILE");
    lemma_lengths_differ("MATERIALDICT"@, "OPACITYTILE"@);
    reveal_strlit("REFLECTIONTILE");
    lemma_lengths_differ("MATERIALDICT"@, "REFLECTIONTILE"@);
    reveal_strlit("REFRACTIONTILE");
    lemma_lengths_differ("MATERIALDICT"@, "REFRACTIONTILE"@);
    reveal_strlit("SPECULARTILE");
    lemma_differ_at("MATERIALDICT"@, "SPECULARTILE"@, 0);
    reveal_strlit("BUMP");
    lemma_lengths_differ("MATERIALDICT"@, "BUMP"@);
    reveal_strlit("DIFFUSE");
    lemma_lengths_differ("MATERIALDICT"@, "DIFFUSE"@);
    law_kind_ignores_case(s, "MATERIALDICT"@);
}

proof fn lemma_key_71(s: Seq<char>)
    requires
        eq_ci(s, "VIZ XML MATERIAL DEFINITION"@),
    ensures
        known_kind_of(s) == KnownXRecordKind::MaterialAsset,
{
    reveal_strlit("VIZ XML MATERIAL DEFINITION");
    reveal_strlit("ADSK_XREC_LAYER_ALPHA_OVR");
    lemma_lengths_differ("VIZ XML MATERIAL DEFINITION"@, "ADSK_XREC_LAYER_ALPHA_OVR"@);
    reveal_strlit("ADSK_XREC_LAYER_COLOR_OVR");
    lemma_lengths_differ("VIZ XML MATERIAL DEFINITION"@, "ADSK_XREC_LAYER_COLOR_OVR"@);
    reveal_strlit("ADSK_XREC_LAYER_LINETYPE_OVR");
    lemma_lengths_differ("VIZ XML MATERIAL DEFINITION"@, "ADSK_XREC_LAYER_LINETYPE_OVR"@);
    reveal_strlit("ADSK_XREC_LAYER_LINEWT_OVR");
    lemma_lengths_differ("VIZ XML MATERIAL DEFINITION"@, "ADSK_XREC_LAYER_LINEWT_OVR"@);
    reveal_strlit("ADSK_XREC_LAYER_RECONCILED");
    lemma_lengths_differ("VIZ XML MATERIAL DEFINITION"@, "ADSK_XREC_LAYER_RECONCILED"@);
    reveal_strlit("ACADLAYERSTATEANNOSCALE");
    lemma_lengths_differ("VIZ XML MATERIAL DEFINITION"@, "ACADLAYERSTATEANNOSCALE"@);
    reveal_strlit("ASDK_XREC_ANNOTATION_SCALE_INFO");
    lemma_lengths_differ("VIZ XML MATERIAL DEFINITION"@, "ASDK_XREC_ANNOTATION_SCALE_INFO"@);
    reveal_strlit("ASDK_XREC_ANNO_SCALE_INFO");
    lemma_lengths_differ("VIZ XML MATERIAL DEFINITION"@, "ASDK_XREC_ANNO_SCALE_INFO"@);
    reveal_strlit("ADSK_XREC_VTR_ANNOSCALE_DATA");
    lemma_lengths_differ("VIZ XML MATERIAL DEFINITION"@, "ADSK_XREC_VTR_ANNOSCALE_DATA"@);
    reveal_strlit("ADSK_XREC_SUBDVERTEXTEXCOORDS");
    lemma_lengths_differ("VIZ XML MATERIAL DEFINITION"@, "ADSK_XREC_SUBDVERTEXTEXCOORDS"@);
    reveal_strlit("ACAD_XREC_ROUNDTRIP");
    lemma_lengths_differ("VIZ XML MATERIAL DEFINITION"@, "ACAD_XREC_ROUNDTRIP"@);
    reveal_strlit("ACAD_MTEXT_RT");
    lemma_lengths_differ("VIZ XML MATERIAL DEFINITION"@, "ACAD_MTEXT_RT"@);
    reveal_strlit("ACAD_MTEXT_2008_RT");
    lemma_lengths_differ("VIZ XML MATERIAL DEFINITION"@, "ACAD_MTEXT_2008_RT"@);
    reveal_strlit("ACDBHEADERROUNDTRIPXREC");
    lemma_lengths_differ("VIZ XML MATERIAL DEFINITION"@, "ACDBHEADERROUNDTRIPXREC"@);
    reveal_strlit("AUXHDRRNDTRIPDATA");
    lemma_lengths_differ("VIZ XML MATERIAL DEFINITION"@, "AUXHDRRNDTRIPDATA"@);
    reveal_strlit("ACDB_RECOMPOSE_DATA");
    lemma_lengths_differ("VIZ XML MATERIAL DEFINITION"@, "ACDB_RECOMPOSE_DATA"@);
    reveal_strlit("ACAD_ENHANCEDBLOCKHISTORY");
    lemma_lengths_differ("VIZ XML MATERIAL DEFINITION"@, "ACAD_ENHANCEDBLOCKHISTORY"@);
    reveal_strlit("ASEBLOCKHIERARCHYINDEXRECORD");
    lemma_lengths_differ("VIZ XML MATERIAL DEFINITION"@, "ASEBLOCKHIERARCHYINDEXRECORD"@);
    reveal_strlit("ADSK_XREC_LAYOUTTHUMBNAIL");
    lemma_lengths_differ("VIZ XML MATERIAL DEFINITION"@, "ADSK_XREC_LAYOUTTHUMBNAIL"@);
    reveal_strlit("ADSK_XREC_VTRANIMATIONINFO");
    lemma_lengths_differ("VIZ XML MATERIAL DEFINITION"@, "ADSK_XREC_VTRANIMATIONINFO"@);
    reveal_strlit("ADSK_XREC_VTRTHUMBNAIL");
    lemma_lengths_differ("VIZ XML MATERIAL DEFINITION"@, "ADSK_XREC_VTRTHUMBNAIL"@);
    reveal_strlit("ADSK_XREC_VTRVIEWINFO");
    lemma_lengths_differ("VIZ XML MATERIAL DEFINITION"@, "ADSK_XREC_VTRVIEWINFO"@);
    reveal_strlit("ADSK_XREC_PHOTOMETRICLIGHTINFO");
    lemma_lengths_differ("VIZ XML MATERIAL DEFINITION"@, "ADSK_XREC_PHOTOMETRICLIGHTINFO"@);
    reveal_strlit("LIGHTINGQUALITY");
    lemma_lengths_differ("VIZ XML MATERIAL DEFINITION"@, "LIGHTINGQUALITY"@);
    reveal_strlit("ACAD_LAST_SAVED_VERSION_INFO");
    lemma_lengths_differ("VIZ XML MATERIAL DEFINITION"@, "ACAD_LAST_SAVED_VERSION_INFO"@);
    reveal_strlit("ACAD_CIP_PREVIOUS_PRODUCT_INFO");
    lemma_lengths_differ("VIZ XML MATERIAL DEFINITION"@, "ACAD_CIP_PREVIOUS_PRODUCT_INFO"@);
    reveal_strlit("DWGPROPS");
    lemma_lengths_differ("VIZ XML MATERIAL DEFINITION"@, "DWGPROPS"@);
    reveal_strlit("FINGERPRINTGUID");
    lemma_lengths_differ("VIZ XML MATERIAL DEFINITION"@, "FINGERPRINTGUID"@);
    reveal_strlit("ACADDIM");
    lemma_lengths_differ("VIZ XML MATERIAL DEFINITION"@, "ACADDIM"@);
    reveal_strlit("DIMSTYLEDATA");
    lemma_lengths_differ("VIZ XML MATERIAL DEFINITION"@, "DIMSTYLEDATA"@);
    reveal_strlit("DIMLTEX1");
    lemma_lengths_differ("VIZ XML MATERIAL DEFINITION"@, "DIMLTEX1"@);
    reveal_strlit("DIMLTEX2");
    lemma_lengths_differ("VIZ XML MATERIAL DEFINITION"@, "DIMLTEX2"@);
    reveal_strlit("DIMLTYPE");
    lemma_lengths_differ("VIZ XML MATERIAL DEFINITION"@, "DIMLTYPE"@);
    reveal_strlit("TSTACKALIGN");
    lemma_lengths_differ("VIZ XML MATERIAL DEFINITION"@, "TSTACKALIGN"@);
    reveal_strlit("TSTACKSIZE");
    lemma_lengths_differ("VIZ XML MATERIAL DEFINITION"@, "TSTACKSIZE"@);
    reveal_strlit("PUCSBASE");
    lemma_lengths_differ("VIZ XML MATERIAL DEFINITION"@, "PUCSBASE"@);
    reveal_strlit("PUCSORGBACK");
    lemma_lengths_differ("VIZ XML MATERIAL DEFINITION"@, "PUCSORGBACK"@);
    reveal_strlit("PUCSORGBOTTOM");
    lemma_lengths_differ("VIZ XML MATERIAL DEFINITION"@, "PUCSORGBOTTOM"@);
    reveal_strlit("PUCSORGFRONT");
    lemma_lengths_differ("VIZ XML MATERIAL DEFINITION"@, "PUCSORGFRONT"@);
    reveal_strlit("PUCSORGLEFT");
    lemma_lengths_differ("VIZ XML MATERIAL DEFINITION"@, "PUCSORGLEFT"@);
    reveal_strlit("PUCSORGRIGHT");
    lemma_lengths_differ("VIZ XML MATERIAL DEFINITION"@, "PUCSORGRIGHT"@);
    reveal_strlit("PUCSORGTOP");
    lemma_lengths_differ("VIZ XML MATERIAL DEFINITION"@, "PUCSORGTOP"@);
    reveal_strlit("PUCSORTHOREF");
    lemma_lengths_differ("VIZ XML MATERIAL DEFINITION"@, "PUCSORTHOREF"@);
    reveal_strlit("PUCSORTHOVIEW");
    lemma_lengths_differ("VIZ XML MATERIAL DEFINITION"@, "PUCSORTHOVIEW"@);
    reveal_strlit("UCSBASE");
    lemma_lengths_differ("VIZ XML MATERIAL DEFINITION"@, "UCSBASE"@);
    reveal_strlit("UCSORGBACK");
    lemma_lengths_differ("VIZ XML MATERIAL DEFINITION"@, "UCSORGBACK"@);
    reveal_strlit("UCSORGBOTTOM");
    lemma_lengths_differ("VIZ XML MATERIAL DEFINITION"@, "UCSORGBOTTOM"@);
    reveal_strlit("UCSORGFRONT");
    lemma_lengths_differ("VIZ XML MATERIAL DEFINITION"@, "UCSORGFRONT"@);
    reveal_strlit("UCSORGLEFT");
    lemma_lengths_differ("VIZ XML MATERIAL DEFINITION"@, "UCSORGLEFT"@);
    reveal_strlit("UCSORGRIGHT");
    lemma_lengths_differ("VIZ XML MATERIAL DEFINITION"@, "UCSORGRIGHT"@);
    reveal_strlit("UCSORGTOP");
    lemma_lengths_differ("VIZ XML MATERIAL DEFINITION"@, "UCSORGTOP"@);
    reveal_strlit("UCSORTHOREF");
    lemma_lengths_differ("VIZ XML MATERIAL DEFINITION"@, "UCSORTHOREF"@);
    reveal_strlit("UCSORTHOVIEW");
    lemma_lengths_differ("VIZ XML MATERIAL DEFINITION"@, "UCSORTHOVIEW"@);
    reveal_strlit("ACAD_LAYOUTSELFREF");
    lemma_lengths_differ("VIZ XML MATERIAL DEFINITION"@, "ACAD_LAYOUTSELFREF"@);
    reveal_strlit("LAYOUTDICT");
    lemma_lengths_differ("VIZ XML MATERIAL DEFINITION"@, "LAYOUTDICT"@);
    reveal_strlit("PLOTSETDICT");
    lemma_lengths_differ("VIZ XML MATERIAL DEFINITION"@, "PLOTSETDICT"@);
    reveal_strlit("PLOTSTYLNAMDICT");
    lemma_lengths_differ("VIZ XML MATERIAL DEFINITION"@, "PLOTSTYLNAMDICT"@);
    reveal_strlit("PSVPSCALE");
    lemma_lengths_differ("VIZ XML MATERIAL DEFINITION"@, "PSVPSCALE"@);
    reveal_strlit("STYLESHEET");
    lemma_lengths_differ("VIZ XML MATERIAL DEFINITION"@, "STYLESHEET"@);
    reveal_strlit("HYPERLINKBASE");
    lemma_lengths_differ("VIZ XML MATERIAL DEFINITION"@, "HYPERLINKBASE"@);
    reveal_strlit("ADVMATERIAL");
    lemma_lengths_differ("VIZ XML MATERIAL DEFINITION"@, "ADVMATERIAL"@);
    reveal_strlit("FBXASSET");
    lemma_lengths_differ("VIZ XML MATERIAL DEFINITION"@, "FBXASSET"@);
    reveal_strlit("BUMPTILE");
    lemma_lengths_differ("VIZ XML MATERIAL DEFINITION"@, "BUMPTILE"@);
    reveal_strlit("DIFFUSETILE");
    lemma_lengths_differ("VIZ XML MATERIAL DEFINITION"@, "DIFFUSETILE"@);
    reveal_strlit("OPACITYTILE");
    lemma_lengths_differ("VIZ XML MATERIAL DEFINITION"@, "OPACITYTILE"@);
    reveal_strlit("REFLECTIONTILE");
    lemma_lengths_differ("VIZ XML MATERIAL DEFINITION"@, "REFLECTIONTILE"@);
    reveal_strlit("REFRACTIONTILE");
    lemma_lengths_differ("VIZ XML MATERIAL DEFINITION"@, "REFRACTIONTILE"@);
    reveal_strlit("SPECULARTILE");
    lemma_lengths_differ("VIZ XML MATERIAL DEFINITION"@, "SPECULARTILE"@);
    reveal_strlit("BUMP");
    lemma_lengths_differ("VIZ XML MATERIAL DEFINITION"@, "BUMP"@);
    reveal_strlit("DIFFUSE");
    lemma_lengths_differ("VIZ XML MATERIAL DEFINITION"@, "DIFFUSE"@);
    reveal_strlit("MATERIALDICT");
    lemma_lengths_differ("VIZ XML MATERIAL DEFINITION"@, "MATERIALDICT"@);
    law_kind_ignores_case(s, "VIZ XML MATERIAL DEFINITION"@);
}

proof fn lemma_key_72(s: Seq<char>)
    requires
        eq_ci(s, "ACAD_MLATT"@),
    ensures
        known_kind_of(s) == KnownXRecordKind::Metadata,
{
    reveal_strlit("ACAD_MLATT");
    reveal_strlit("ADSK_XREC_LAYER_ALPHA_OVR");
    lemma_lengths_differ("ACAD_MLATT"@, "ADSK_XREC_LAYER_ALPHA_OVR"@);
    reveal_strlit("ADSK_XREC_LAYER_COLOR_OVR");
    lemma_lengths_differ("ACAD_MLATT"@, "ADSK_XREC_LAYER_COLOR_OVR"@);
    reveal_strlit("ADSK_XREC_LAYER_LINETYPE_OVR");
    lemma_lengths_differ("ACAD_MLATT"@, "ADSK_XREC_LAYER_LINETYPE_OVR"@);
    reveal_strlit("ADSK_XREC_LAYER_LINEWT_OVR");
    lemma_lengths_differ("ACAD_MLATT"@, "ADSK_XREC_LAYER_LINEWT_OVR"@);
    reveal_strlit("ADSK_XREC_LAYER_RECONCILED");
    lemma_lengths_differ("ACAD_MLATT"@, "ADSK_XREC_LAYER_RECONCILED"@);
    reveal_strlit("ACADLAYERSTATEANNOSCALE");
    lemma_lengths_differ("ACAD_MLATT"@, "ACADLAYERSTATEANNOSCALE"@);
    reveal_strlit("ASDK_XREC_ANNOTATION_SCALE_INFO");
    lemma_lengths_differ("ACAD_MLATT"@, "ASDK_XREC_ANNOTATION_SCALE_INFO"@);
    reveal_strlit("ASDK_XREC_ANNO_SCALE_INFO");
    lemma_lengths_differ("ACAD_MLATT"@, "ASDK_XREC_ANNO_SCALE_INFO"@);
    reveal_strlit("ADSK_XREC_VTR_ANNOSCALE_DATA");
    lemma_lengths_differ("ACAD_MLATT"@, "ADSK_XREC_VTR_ANNOSCALE_DATA"@);
    reveal_strlit("ADSK_XREC_SUBDVERTEXTEXCOORDS");
    lemma_lengths_differ("ACAD_MLATT"@, "ADSK_XREC_SUBDVERTEXTEXCOORDS"@);
    reveal_strlit("ACAD_XREC_ROUNDTRIP");
    lemma_lengths_differ("ACAD_MLATT"@, "ACAD_XREC_ROUNDTRIP"@);
    reveal_strlit("ACAD_MTEXT_RT");
    lemma_lengths_differ("ACAD_MLATT"@, "ACAD_MTEXT_RT"@);
    reveal_strlit("ACAD_MTEXT_2008_RT");
    lemma_lengths_differ("ACAD_MLATT"@, "ACAD_MTEXT_2008_RT"@);
    reveal_strlit("ACDBHEADERROUNDTRIPXREC");
    lemma_lengths_differ("ACAD_MLATT"@, "ACDBHEADERROUNDTRIPXREC"@);
    reveal_strlit("AUXHDRRNDTRIPDATA");
    lemma_lengths_differ("ACAD_MLATT"@, "AUXHDRRNDTRIPDATA"@);
    reveal_strlit("ACDB_RECOMPOSE_DATA");
    lemma_lengths_differ("ACAD_MLATT"@, "ACDB_RECOMPOSE_DATA"@);
    reveal_strlit("ACAD_ENHANCEDBLOCKHISTORY");
    lemma_lengths_differ("ACAD_MLATT"@, "ACAD_ENHANCEDBLOCKHISTORY"@);
    reveal_strlit("ASEBLOCKHIERARCHYINDEXRECORD");
    lemma_lengths_differ("ACAD_MLATT"@, "ASEBLOCKHIERARCHYINDEXRECORD"@);
    reveal_strlit("ADSK_XREC_LAYOUTTHUMBNAIL");
    lemma_lengths_differ("ACAD_MLATT"@, "ADSK_XREC_LAYOUTTHUMBNAIL"@);
    reveal_strlit("ADSK_XREC_VTRANIMATIONINFO");
    lemma_lengths_differ("ACAD_MLATT"@, "ADSK_XREC_VTRANIMATIONINFO"@);
    reveal_strlit("ADSK_XREC_VTRTHUMBNAIL");
    lemma_lengths_differ("ACAD_MLATT"@, "ADSK_XREC_VTRTHUMBNAIL"@);
    reveal_strlit("ADSK_XREC_VTRVIEWINFO");
    lemma_lengths_differ("ACAD_MLATT"@, "ADSK_XREC_VTRVIEWINFO"@);
    reveal_strlit("ADSK_XREC_PHOTOMETRICLIGHTINFO");
    lemma_lengths_differ("ACAD_MLATT"@, "ADSK_XREC_PHOTOMETRICLIGHTINFO"@);
    reveal_strlit("LIGHTINGQUALITY");
    lemma_lengths_differ("ACAD_MLATT"@, "LIGHTINGQUALITY"@);
    reveal_strlit("ACAD_LAST_SAVED_VERSION_INFO");
    lemma_lengths_differ("ACAD_MLATT"@, "ACAD_LAST_SAVED_VERSION_INFO"@);
    reveal_strlit("ACAD_CIP_PREVIOUS_PRODUCT_INFO");
    lemma_lengths_differ("ACAD_MLATT"@, "ACAD_CIP_PREVIOUS_PRODUCT_INFO"@);
    reveal_strlit("DWGPROPS");
    lemma_lengths_differ("ACAD_MLATT"@, "DWGPROPS"@);
    reveal_strlit("FINGERPRINTGUID");
    lemma_lengths_differ("ACAD_MLATT"@, "FINGERPRINTGUID"@);
    reveal_strlit("ACADDIM");
    lemma_lengths_differ("ACAD_MLATT"@, "ACADDIM"@);
    reveal_strlit("DIMSTYLEDATA");
    lemma_lengths_differ("ACAD_MLATT"@, "DIMSTYLEDATA"@);
    reveal_strlit("DIMLTEX1");
    lemma_lengths_differ("ACAD_MLATT"@, "DIMLTEX1"@);
    reveal_strlit("DIMLTEX2");
    lemma_lengths_differ("ACAD_MLATT"@, "DIMLTEX2"@);
    reveal_strlit("DIMLTYPE");
    lemma_lengths_differ("ACAD_MLATT"@, "DIMLTYPE"@);
    reveal_strlit("TSTACKALIGN");
    lemma_lengths_differ("ACAD_MLATT"@, "TSTACKALIGN"@);
    reveal_strlit("TSTACKSIZE");
    lemma_differ_at("ACAD_MLATT"@, "TSTACKSIZE"@, 0);
    reveal_strlit("PUCSBASE");
    lemma_lengths_differ("ACAD_MLATT"@, "PUCSBASE"@);
    reveal_strlit("PUCSORGBACK");
    lemma_lengths_differ("ACAD_MLATT"@, "PUCSORGBACK"@);
    reveal_strlit("PUCSORGBOTTOM");
    lemma_lengths_differ("ACAD_MLATT"@, "PUCSORGBOTTOM"@);
    reveal_strlit("PUCSORGFRONT");
    lemma_lengths_differ("ACAD_MLATT"@, "PUCSORGFRONT"@);
    reveal_strlit("PUCSORGLEFT");
    lemma_lengths_differ("ACAD_MLATT"@, "PUCSORGLEFT"@);
    reveal_strlit("PUCSORGRIGHT");
    lemma_lengths_differ("ACAD_MLATT"@, "PUCSORGRIGHT"@);
    reveal_strlit("PUCSORGTOP");
    lemma_differ_at("ACAD_MLATT"@, "PUCSORGTOP"@, 0);
    reveal_strlit("PUCSORTHOREF");
    lemma_lengths_differ("ACAD_MLATT"@, "PUCSORTHOREF"@);
    reveal_strlit("PUCSORTHOVIEW");
    lemma_lengths_differ("ACAD_MLATT"@, "PUCSORTHOVIEW"@);
    reveal_strlit("UCSBASE");
    lemma_lengths_differ("ACAD_MLATT"@, "UCSBASE"@);
    reveal_strlit("UCSORGBACK");
    lemma_differ_at("ACAD_MLATT"@, "UCSORGBACK"@, 0);
    reveal_strlit("UCSORGBOTTOM");
    lemma_lengths_differ("ACAD_MLATT"@, "UCSORGBOTTOM"@);
    reveal_strlit("UCSORGFRONT");
    lemma_lengths_differ("ACAD_MLATT"@, "UCSORGFRONT"@);
    reveal_strlit("UCSORGLEFT");
    lemma_differ_at("ACAD_MLATT"@, "UCSORGLEFT"@, 0);
    reveal_strlit("UCSORGRIGHT");
    lemma_lengths_differ("ACAD_MLATT"@, "UCSORGRIGHT"@);
    reveal_strlit("UCSORGTOP");
    lemma_lengths_differ("ACAD_MLATT"@, "UCSORGTOP"@);
    reveal_strlit("UCSORTHOREF");
    lemma_lengths_differ("ACAD_MLATT"@, "UCSORTHOREF"@);
    reveal_strlit("UCSORTHOVIEW");
    lemma_lengths_differ("ACAD_MLATT"@, "UCSORTHOVIEW"@);
    reveal_strlit("ACAD_LAYOUTSELFREF");
    lemma_lengths_differ("ACAD_MLATT"@, "ACAD_LAYOUTSELFREF"@);
    reveal_strlit("LAYOUTDICT");
    lemma_differ_at("ACAD_MLATT"@, "LAYOUTDICT"@, 0);
    reveal_strlit("PLOTSETDICT");
    lemma_lengths_differ("ACAD_MLATT"@, "PLOTSETDICT"@);
    reveal_strlit("PLOTSTYLNAMDICT");
    lemma_lengths_differ("ACAD_MLATT"@, "PLOTSTYLNAMDICT"@);
    reveal_strlit("PSVPSCALE");
    lemma_lengths_differ("ACAD_MLATT"@, "PSVPSCALE"@);
    reveal_strlit("STYLESHEET");
    lemma_differ_at("ACAD_MLATT"@, "STYLESHEET"@, 0);
    reveal_strlit("HYPERLINKBASE");
    lemma_lengths_differ("ACAD_MLATT"@, "HYPERLINKBASE"@);
    reveal_strlit("ADVMATERIAL");
    lemma_lengths_differ("ACAD_MLATT"@, "ADVMATERIAL"@);
    reveal_strlit("FBXASSET");
    lemma_lengths_differ("ACAD_MLATT"@, "FBXASSET"@);
    reveal_strlit("BUMPTILE");
    lemma_lengths_differ("ACAD_MLATT"@, "BUMPTILE"@);
    reveal_strlit("DIFFUSETILE");
    lemma_lengths_differ("ACAD_MLATT"@, "DIFFUSETILE"@);
    reveal_strlit("OPACITYTILE");
    lemma_lengths_differ("ACAD_MLATT"@, "OPACITYTILE"@);
    reveal_strlit("REFLECTIONTILE");
    lemma_lengths_differ("ACAD_MLATT"@, "REFLECTIONTILE"@);
    reveal_strlit("REFRACTIONTILE");
    lemma_lengths_differ("ACAD_MLATT"@, "REFRACTIONTILE"@);
    reveal_strlit("SPECULARTILE");
    lemma_lengths_differ("ACAD_MLATT"@, "SPECULARTILE"@);
    reveal_strlit("BUMP");
    lemma_lengths_differ("ACAD_MLATT"@, "BUMP"@);
    reveal_strlit("DIFFUSE");
    lemma_lengths_differ("ACAD_MLATT"@, "DIFFUSE"@);
    reveal_strlit("MATERIALDICT");
    lemma_lengths_differ("ACAD_MLATT"@, "MATERIALDICT"@);
    reveal_strlit("VIZ XML MATERIAL DEFINITION");
    lemma_lengths_differ("ACAD_MLATT"@, "VIZ XML MATERIAL DEFINITION"@);
    law_kind_ignores_case(s, "ACAD_MLATT"@);
}

proof fn lemma_key_73(s: Seq<char>)
    requires
        eq_ci(s, "ACAD_VIEWS_VIEW_CUSTOM"@),
    ensures
        known_kind_of(s) == KnownXRecordKind::Metadata,
{
    reveal_strlit("ACAD_VIEWS_VIEW_CUSTOM");
    reveal_strlit("ADSK_XREC_LAYER_ALPHA_OVR");
    lemma_lengths_differ("ACAD_VIEWS_VIEW_CUSTOM"@, "ADSK_XREC_LAYER_ALPHA_OVR"@);
    reveal_strlit("ADSK_XREC_LAYER_COLOR_OVR");
    lemma_lengths_differ("ACAD_VIEWS_VIEW_CUSTOM"@, "ADSK_XREC_LAYER_COLOR_OVR"@);
    reveal_strlit("ADSK_XREC_LAYER_LINETYPE_OVR");
    lemma_lengths_differ("ACAD_VIEWS_VIEW_CUSTOM"@, "ADSK_XREC_LAYER_LINETYPE_OVR"@);
    reveal_strlit("ADSK_XREC_LAYER_LINEWT_OVR");
    lemma_lengths_differ("ACAD_VIEWS_VIEW_CUSTOM"@, "ADSK_XREC_LAYER_LINEWT_OVR"@);
    reveal_strlit("ADSK_XREC_LAYER_RECONCILED");
    lemma_lengths_differ("ACAD_VIEWS_VIEW_CUSTOM"@, "ADSK_XREC_LAYER_RECONCILED"@);
    reveal_strlit("ACADLAYERSTATEANNOSCALE");
    lemma_lengths_differ("ACAD_VIEWS_VIEW_CUSTOM"@, "ACADLAYERSTATEANNOSCALE"@);
    reveal_strlit("ASDK_XREC_ANNOTATION_SCALE_INFO");
    lemma_lengths_differ("ACAD_VIEWS_VIEW_CUSTOM"@, "ASDK_XREC_ANNOTATION_SCALE_INFO"@);
    reveal_strlit("ASDK_XREC_ANNO_SCALE_INFO");
    lemma_lengths_differ("ACAD_VIEWS_VIEW_CUSTOM"@, "ASDK_XREC_ANNO_SCALE_INFO"@);
    reveal_strlit("ADSK_XREC_VTR_ANNOSCALE_DATA");
    lemma_lengths_differ("ACAD_VIEWS_VIEW_CUSTOM"@, "ADSK_XREC_VTR_ANNOSCALE_DATA"@);
    reveal_strlit("ADSK_XREC_SUBDVERTEXTEXCOORDS");
    lemma_lengths_differ("ACAD_VIEWS_VIEW_CUSTOM"@, "ADSK_XREC_SUBDVERTEXTEXCOORDS"@);
    reveal_strlit("ACAD_XREC_ROUNDTRIP");
    lemma_lengths_differ("ACAD_VIEWS_VIEW_CUSTOM"@, "ACAD_XREC_ROUNDTRIP"@);
    reveal_strlit("ACAD_MTEXT_RT");
    lemma_lengths_differ("ACAD_VIEWS_VIEW_CUSTOM"@, "ACAD_MTEXT_RT"@);
    reveal_strlit("ACAD_MTEXT_2008_RT");
    lemma_lengths_differ("ACAD_VIEWS_VIEW_CUSTOM"@, "ACAD_MTEXT_2008_RT"@);
    reveal_strlit("ACDBHEADERROUNDTRIPXREC");
    lemma_lengths_differ("ACAD_VIEWS_VIEW_CUSTOM"@, "ACDBHEADERROUNDTRIPXREC"@);
    reveal_strlit("AUXHDRRNDTRIPDATA");
    lemma_lengths_differ("ACAD_VIEWS_VIEW_CUSTOM"@, "AUXHDRRNDTRIPDATA"@);
    reveal_strlit("ACDB_RECOMPOSE_DATA");
    lemma_lengths_differ("ACAD_VIEWS_VIEW_CUSTOM"@, "ACDB_RECOMPOSE_DATA"@);
    reveal_strlit("ACAD_ENHANCEDBLOCKHISTORY");
    lemma_lengths_differ("ACAD_VIEWS_VIEW_CUSTOM"@, "ACAD_ENHANCEDBLOCKHISTORY"@);
    reveal_strlit("ASEBLOCKHIERARCHYINDEXRECORD");
    lemma_lengths_differ("ACAD_VIEWS_VIEW_CUSTOM"@, "ASEBLOCKHIERARCHYINDEXRECORD"@);
    reveal_strlit("ADSK_XREC_LAYOUTTHUMBNAIL");
    lemma_lengths_differ("ACAD_VIEWS_VIEW_CUSTOM"@, "ADSK_XREC_LAYOUTTHUMBNAIL"@);
    reveal_strlit("ADSK_XREC_VTRANIMATIONINFO");
    lemma_lengths_differ("ACAD_VIEWS_VIEW_CUSTOM"@, "ADSK_XREC_VTRANIMATIONINFO"@);
    reveal_strlit("ADSK_XREC_VTRTHUMBNAIL");
    lemma_differ_at("ACAD_VIEWS_VIEW_CUSTOM"@, "ADSK_XREC_VTRTHUMBNAIL"@, 1);
    reveal_strlit("ADSK_XREC_VTRVIEWINFO");
    lemma_lengths_differ("ACAD_VIEWS_VIEW_CUSTOM"@, "ADSK_XREC_VTRVIEWINFO"@);
    reveal_strlit("ADSK_XREC_PHOTOMETRICLIGHTINFO");
    lemma_lengths_differ("ACAD_VIEWS_VIEW_CUSTOM"@, "ADSK_XREC_PHOTOMETRICLIGHTINFO"@);
    reveal_strlit("LIGHTINGQUALITY");
    lemma_lengths_differ("ACAD_VIEWS_VIEW_CUSTOM"@, "LIGHTINGQUALITY"@);
    reveal_strlit("ACAD_LAST_SAVED_VERSION_INFO");
    lemma_lengths_differ("ACAD_VIEWS_VIEW_CUSTOM"@, "ACAD_LAST_SAVED_VERSION_INFO"@);
    reveal_strlit("ACAD_CIP_PREVIOUS_PRODUCT_INFO");
    lemma_lengths_differ("ACAD_VIEWS_VIEW_CUSTOM"@, "ACAD_CIP_PREVIOUS_PRODUCT_INFO"@);
    reveal_strlit("DWGPROPS");
    lemma_lengths_differ("ACAD_VIEWS_VIEW_CUSTOM"@, "DWGPROPS"@);
    reveal_strlit("FINGERPRINTGUID");
    lemma_lengths_differ("ACAD_VIEWS_VIEW_CUSTOM"@, "FINGERPRINTGUID"@);
    reveal_strlit("ACADDIM");
    lemma_lengths_differ("ACAD_VIEWS_VIEW_CUSTOM"@, "ACADDIM"@);
    reveal_strlit("DIMSTYLEDATA");
    lemma_lengths_differ("ACAD_VIEWS_VIEW_CUSTOM"@, "DIMSTYLEDATA"@);
    reveal_strlit("DIMLTEX1");
    lemma_lengths_differ("ACAD_VIEWS_VIEW_CUSTOM"@, "DIMLTEX1"@);
    reveal_strlit("DIMLTEX2");
    lemma_lengths_differ("ACAD_VIEWS_VIEW_CUSTOM"@, "DIMLTEX2"@);
    reveal_strlit("DIMLTYPE");
    lemma_lengths_differ("ACAD_VIEWS_VIEW_CUSTOM"@, "DIMLTYPE"@);
    reveal_strlit("TSTACKALIGN");
    lemma_lengths_differ("ACAD_VIEWS_VIEW_CUSTOM"@, "TSTACKALIGN"@);
    reveal_strlit("TSTACKSIZE");
    lemma_lengths_differ("ACAD_VIEWS_VIEW_CUSTOM"@, "TSTACKSIZE"@);
    reveal_strlit("PUCSBASE");
    lemma_lengths_differ("ACAD_VIEWS_VIEW_CUSTOM"@, "PUCSBASE"@);
    reveal_strlit("PUCSORGBACK");
    lemma_lengths_differ("ACAD_VIEWS_VIEW_CUSTOM"@, "PUCSORGBACK"@);
    reveal_strlit("PUCSORGBOTTOM");
    lemma_lengths_differ("ACAD_VIEWS_VIEW_CUSTOM"@, "PUCSORGBOTTOM"@);
    reveal_strlit("PUCSORGFRONT");
    lemma_lengths_differ("ACAD_VIEWS_VIEW_CUSTOM"@, "PUCSORGFRONT"@);
    reveal_strlit("PUCSORGLEFT");
    lemma_lengths_differ("ACAD_VIEWS_VIEW_CUSTOM"@, "PUCSORGLEFT"@);
    reveal_strlit("PUCSORGRIGHT");
    lemma_lengths_differ("ACAD_VIEWS_VIEW_CUSTOM"@, "PUCSORGRIGHT"@);
    reveal_strlit("PUCSORGTOP");
    lemma_lengths_differ("ACAD_VIEWS_VIEW_CUSTOM"@, "PUCSORGTOP"@);
    reveal_strlit("PUCSORTHOREF");
    lemma_lengths_differ("ACAD_VIEWS_VIEW_CUSTOM"@, "PUCSORTHOREF"@);
    reveal_strlit("PUCSORTHOVIEW");
    lemma_lengths_differ("ACAD_VIEWS_VIEW_CUSTOM"@, "PUCSORTHOVIEW"@);
    reveal_strlit("UCSBASE");
    lemma_lengths_differ("ACAD_VIEWS_VIEW_CUSTOM"@, "UCSBASE"@);
    reveal_strlit("UCSORGBACK");
    lemma_lengths_differ("ACAD_VIEWS_VIEW_CUSTOM"@, "UCSORGBACK"@);
    reveal_strlit("UCSORGBOTTOM");
    lemma_lengths_differ("ACAD_VIEWS_VIEW_CUSTOM"@, "UCSORGBOTTOM"@);
    reveal_strlit("UCSORGFRONT");
    lemma_lengths_differ("ACAD_VIEWS_VIEW_CUSTOM"@, "UCSORGFRONT"@);
    reveal_strlit("UCSORGLEFT");
    lemma_lengths_differ("ACAD_VIEWS_VIEW_CUSTOM"@, "UCSORGLEFT"@);
    reveal_strlit("UCSORGRIGHT");
    lemma_lengths_differ("ACAD_VIEWS_VIEW_CUSTOM"@, "UCSORGRIGHT"@);
    reveal_strlit("UCSORGTOP");
    lemma_lengths_differ("ACAD_VIEWS_VIEW_CUSTOM"@, "UCSORGTOP"@);
    reveal_strlit("UCSORTHOREF");
    lemma_lengths_differ("ACAD_VIEWS_VIEW_CUSTOM"@, "UCSORTHOREF"@);
    reveal_strlit("UCSORTHOVIEW");
    lemma_lengths_differ("ACAD_VIEWS_VIEW_CUSTOM"@, "UCSORTHOVIEW"@);
    reveal_strlit("ACAD_LAYOUTSELFREF");
    lemma_lengths_differ("ACAD_VIEWS_VIEW_CUSTOM"@, "ACAD_LAYOUTSELFREF"@);
    reveal_strlit("LAYOUTDICT");
    lemma_lengths_differ("ACAD_VIEWS_VIEW_CUSTOM"@, "LAYOUTDICT"@);
    reveal_strlit("PLOTSETDICT");
    lemma_lengths_differ("ACAD_VIEWS_VIEW_CUSTOM"@, "PLOTSETDICT"@);
    reveal_strlit("PLOTSTYLNAMDICT");
    lemma_lengths_differ("ACAD_VIEWS_VIEW_CUSTOM"@, "PLOTSTYLNAMDICT"@);
    reveal_strlit("PSVPSCALE");
    lemma_lengths_differ("ACAD_VIEWS_VIEW_CUSTOM"@, "PSVPSCALE"@);
    reveal_strlit("STYLESHEET");
    lemma_lengths_differ("ACAD_VIEWS_VIEW_CUSTOM"@, "STYLESHEET"@);
    reveal_strlit("HYPERLINKBASE");
    lemma_lengths_differ("ACAD_VIEWS_VIEW_CUSTOM"@, "HYPERLINKBASE"@);
    reveal_strlit("ADVMATERIAL");
    lemma_lengths_differ("ACAD_VIEWS_VIEW_CUSTOM"@, "ADVMATERIAL"@);
    reveal_strlit("FBXASSET");
    lemma_lengths_differ("ACAD_VIEWS_VIEW_CUSTOM"@, "FBXASSET"@);
    reveal_strlit("BUMPTILE");
    lemma_lengths_differ("ACAD_VIEWS_VIEW_CUSTOM"@, "BUMPTILE"@);
    reveal_strlit("DIFFUSETILE");
    lemma_lengths_differ("ACAD_VIEWS_VIEW_CUSTOM"@, "DIFFUSETILE"@);
    reveal_strlit("OPACITYTILE");
    lemma_lengths_differ("ACAD_VIEWS_VIEW_CUSTOM"@, "OPACITYTILE"@);
    reveal_strlit("REFLECTIONTILE");
    lemma_lengths_differ("ACAD_VIEWS_VIEW_CUSTOM"@, "REFLECTIONTILE"@);
    reveal_strlit("REFRACTIONTILE");
    lemma_lengths_differ("ACAD_VIEWS_VIEW_CUSTOM"@, "REFRACTIONTILE"@);
    reveal_strlit("SPECULARTILE");
    lemma_lengths_differ("ACAD_VIEWS_VIEW_CUSTOM"@, "SPECULARTILE"@);
    reveal_strlit("BUMP");
    lemma_lengths_differ("ACAD_VIEWS_VIEW_CUSTOM"@, "BUMP"@);
    reveal_strlit("DIFFUSE");
    lemma_lengths_differ("ACAD_VIEWS_VIEW_CUSTOM"@, "DIFFUSE"@);
    reveal_strlit("MATERIALDICT");
    lemma_lengths_differ("ACAD_VIEWS_VIEW_CUSTOM"@, "MATERIALDICT"@);
    reveal_strlit("VIZ XML MATERIAL DEFINITION");
    lemma_lengths_differ("ACAD_VIEWS_VIEW_CUSTOM"@, "VIZ XML MATERIAL DEFINITION"@);
    reveal_strlit("ACAD_MLATT");
    lemma_lengths_differ("ACAD_VIEWS_VIEW_CUSTOM"@, "ACAD_MLATT"@);
    law_kind_ignores_case(s, "ACAD_VIEWS_VIEW_CUSTOM"@);
}

proof fn lemma_key_74(s: Seq<char>)
    requires
        eq_ci(s, "AECDEPRECATIONHISTORY"@),
    ensures
        known_kind_of(s) == KnownXRecordKind::Metadata,
{
    reveal_strlit("AECDEPRECATIONHISTORY");
    reveal_strlit("ADSK_XREC_LAYER_ALPHA_OVR");
    lemma_lengths_differ("AECDEPRECATIONHISTORY"@, "ADSK_XREC_LAYER_ALPHA_OVR"@);
    reveal_strlit("ADSK_XREC_LAYER_COLOR_OVR");
    lemma_lengths_differ("AECDEPRECATIONHISTORY"@, "ADSK_XREC_LAYER_COLOR_OVR"@);
    reveal_strlit("ADSK_XREC_LAYER_LINETYPE_OVR");
    lemma_lengths_differ("AECDEPRECATIONHISTORY"@, "ADSK_XREC_LAYER_LINETYPE_OVR"@);
    reveal_strlit("ADSK_XREC_LAYER_LINEWT_OVR");
    lemma_lengths_differ("AECDEPRECATIONHISTORY"@, "ADSK_XREC_LAYER_LINEWT_OVR"@);
    reveal_strlit("ADSK_XREC_LAYER_RECONCILED");
    lemma_lengths_differ("AECDEPRECATIONHISTORY"@, "ADSK_XREC_LAYER_RECONCILED"@);
    reveal_strlit("ACADLAYERSTATEANNOSCALE");
    lemma_lengths_differ("AECDEPRECATIONHISTORY"@, "ACADLAYERSTATEANNOSCALE"@);
    reveal_strlit("ASDK_XREC_ANNOTATION_SCALE_INFO");
    lemma_lengths_differ("AECDEPRECATIONHISTORY"@, "ASDK_XREC_ANNOTATION_SCALE_INFO"@);
    reveal_strlit("ASDK_XREC_ANNO_SCALE_INFO");
    lemma_lengths_differ("AECDEPRECATIONHISTORY"@, "ASDK_XREC_ANNO_SCALE_INFO"@);
    reveal_strlit("ADSK_XREC_VTR_ANNOSCALE_DATA");
    lemma_lengths_differ("AECDEPRECATIONHISTORY"@, "ADSK_XREC_VTR_ANNOSCALE_DATA"@);
    reveal_strlit("ADSK_XREC_SUBDVERTEXTEXCOORDS");
    lemma_lengths_differ("AECDEPRECATIONHISTORY"@, "ADSK_XREC_SUBDVERTEXTEXCOORDS"@);
    reveal_strlit("ACAD_XREC_ROUNDTRIP");
    lemma_lengths_differ("AECDEPRECATIONHISTORY"@, "ACAD_XREC_ROUNDTRIP"@);
    reveal_strlit("ACAD_MTEXT_RT");
    lemma_lengths_differ("AECDEPRECATIONHISTORY"@, "ACAD_MTEXT_RT"@);
    reveal_strlit("ACAD_MTEXT_2008_RT");
    lemma_lengths_differ("AECDEPRECATIONHISTORY"@, "ACAD_MTEXT_2008_RT"@);
    reveal_strlit("ACDBHEADERROUNDTRIPXREC");
    lemma_lengths_differ("AECDEPRECATIONHISTORY"@, "ACDBHEADERROUNDTRIPXREC"@);
    reveal_strlit("AUXHDRRNDTRIPDATA");
    lemma_lengths_differ("AECDEPRECATIONHISTORY"@, "AUXHDRRNDTRIPDATA"@);
    reveal_strlit("ACDB_RECOMPOSE_DATA");
    lemma_lengths_differ("AECDEPRECATIONHISTORY"@, "ACDB_RECOMPOSE_DATA"@);
    reveal_strlit("ACAD_ENHANCEDBLOCKHISTORY");
    lemma_lengths_differ("AECDEPRECATIONHISTORY"@, "ACAD_ENHANCEDBLOCKHISTORY"@);
    reveal_strlit("ASEBLOCKHIERARCHYINDEXRECORD");
    lemma_lengths_differ("AECDEPRECATIONHISTORY"@, "ASEBLOCKHIERARCHYINDEXRECORD"@);
    reveal_strlit("ADSK_XREC_LAYOUTTHUMBNAIL");
    lemma_lengths_differ("AECDEPRECATIONHISTORY"@, "ADSK_XREC_LAYOUTTHUMBNAIL"@);
    reveal_strlit("ADSK_XREC_VTRANIMATIONINFO");
    lemma_lengths_differ("AECDEPRECATIONHISTORY"@, "ADSK_XREC_VTRANIMATIONINFO"@);
    reveal_strlit("ADSK_XREC_VTRTHUMBNAIL");
    lemma_lengths_differ("AECDEPRECATIONHISTORY"@, "ADSK_XREC_VTRTHUMBNAIL"@);
    reveal_strlit("ADSK_XREC_VTRVIEWINFO");
    lemma_differ_at("AECDEPRECATIONHISTORY"@, "ADSK_XREC_VTRVIEWINFO"@, 1);
    reveal_strlit("ADSK_XREC_PHOTOMETRICLIGHTINFO");
    lemma_lengths_differ("AECDEPRECATIONHISTORY"@, "ADSK_XREC_PHOTOMETRICLIGHTINFO"@);
    reveal_strlit("LIGHTINGQUALITY");
    lemma_lengths_differ("AECDEPRECATIONHISTORY"@, "LIGHTINGQUALITY"@);
    reveal_strlit("ACAD_LAST_SAVED_VERSION_INFO");
    lemma_lengths_differ("AECDEPRECATIONHISTORY"@, "ACAD_LAST_SAVED_VERSION_INFO"@);
    reveal_strlit("ACAD_CIP_PREVIOUS_PRODUCT_INFO");
    lemma_lengths_differ("AECDEPRECATIONHISTORY"@, "ACAD_CIP_PREVIOUS_PRODUCT_INFO"@);
    reveal_strlit("DWGPROPS");
    lemma_lengths_differ("AECDEPRECATIONHISTORY"@, "DWGPROPS"@);
    reveal_strlit("FINGERPRINTGUID");
    lemma_lengths_differ("AECDEPRECATIONHISTORY"@, "FINGERPRINTGUID"@);
    reveal_strlit("ACADDIM");
    lemma_lengths_differ("AECDEPRECATIONHISTORY"@, "ACADDIM"@);
    reveal_strlit("DIMSTYLEDATA");
    lemma_lengths_differ("AECDEPRECATIONHISTORY"@, "DIMSTYLEDATA"@);
    reveal_strlit("DIMLTEX1");
    lemma_lengths_differ("AECDEPRECATIONHISTORY"@, "DIMLTEX1"@);
    reveal_strlit("DIMLTEX2");
    lemma_lengths_differ("AECDEPRECATIONHISTORY"@, "DIMLTEX2"@);
    reveal_strlit("DIMLTYPE");
    lemma_lengths_differ("AECDEPRECATIONHISTORY"@, "DIMLTYPE"@);
    reveal_strlit("TSTACKALIGN");
    lemma_lengths_differ("AECDEPRECATIONHISTORY"@, "TSTACKALIGN"@);
    reveal_strlit("TSTACKSIZE");
    lemma_lengths_differ("AECDEPRECATIONHISTORY"@, "TSTACKSIZE"@);
    reveal_strlit("PUCSBASE");
    lemma_lengths_differ("AECDEPRECATIONHISTORY"@, "PUCSBASE"@);
    reveal_strlit("PUCSORGBACK");
    lemma_lengths_differ("AECDEPRECATIONHISTORY"@, "PUCSORGBACK"@);
    reveal_strlit("PUCSORGBOTTOM");
    lemma_lengths_differ("AECDEPRECATIONHISTORY"@, "PUCSORGBOTTOM"@);
    reveal_strlit("PUCSORGFRONT");
    lemma_lengths_differ("AECDEPRECATIONHISTORY"@, "PUCSORGFRONT"@);
    reveal_strlit("PUCSORGLEFT");
    lemma_lengths_differ("AECDEPRECATIONHISTORY"@, "PUCSORGLEFT"@);
    reveal_strlit("PUCSORGRIGHT");
    lemma_lengths_differ("AECDEPRECATIONHISTORY"@, "PUCSORGRIGHT"@);
    reveal_strlit("PUCSORGTOP");
    lemma_lengths_differ("AECDEPRECATIONHISTORY"@, "PUCSORGTOP"@);
    reveal_strlit("PUCSORTHOREF");
    lemma_lengths_differ("AECDEPRECATIONHISTORY"@, "PUCSORTHOREF"@);
    reveal_strlit("PUCSORTHOVIEW");
    lemma_lengths_differ("AECDEPRECATIONHISTORY"@, "PUCSORTHOVIEW"@);
    reveal_strlit("UCSBASE");
    lemma_lengths_differ("AECDEPRECATIONHISTORY"@, "UCSBASE"@);
    reveal_strlit("UCSORGBACK");
    lemma_lengths_differ("AECDEPRECATIONHISTORY"@, "UCSORGBACK"@);
    reveal_strlit("UCSORGBOTTOM");
    lemma_lengths_differ("AECDEPRECATIONHISTORY"@, "UCSORGBOTTOM"@);
    reveal_strlit("UCSORGFRONT");
    lemma_lengths_differ("AECDEPRECATIONHISTORY"@, "UCSORGFRONT"@);
    reveal_strlit("UCSORGLEFT");
    lemma_lengths_differ("AECDEPRECATIONHISTORY"@, "UCSORGLEFT"@);
    reveal_strlit("UCSORGRIGHT");
    lemma_lengths_differ("AECDEPRECATIONHISTORY"@, "UCSORGRIGHT"@);
    reveal_strlit("UCSORGTOP");
    lemma_lengths_differ("AECDEPRECATIONHISTORY"@, "UCSORGTOP"@);
    reveal_strlit("UCSORTHOREF");
    lemma_lengths_differ("AECDEPRECATIONHISTORY"@, "UCSORTHOREF"@);
    reveal_strlit("UCSORTHOVIEW");
    lemma_lengths_differ("AECDEPRECATIONHISTORY"@, "UCSORTHOVIEW"@);
    reveal_strlit("ACAD_LAYOUTSELFREF");
    lemma_lengths_differ("AECDEPRECATIONHISTORY"@, "ACAD_LAYOUTSELFREF"@);
    reveal_strlit("LAYOUTDICT");
    lemma_lengths_differ("AECDEPRECATIONHISTORY"@, "LAYOUTDICT"@);
    reveal_strlit("PLOTSETDICT");
    lemma_lengths_differ("AECDEPRECATIONHISTORY"@, "PLOTSETDICT"@);
    reveal_strlit("PLOTSTYLNAMDICT");
    lemma_lengths_differ("AECDEPRECATIONHISTORY"@, "PLOTSTYLNAMDICT"@);
    reveal_strlit("PSVPSCALE");
    lemma_lengths_differ("AECDEPRECATIONHISTORY"@, "PSVPSCALE"@);
    reveal_strlit("STYLESHEET");
    lemma_lengths_differ("AECDEPRECATIONHISTORY"@, "STYLESHEET"@);
    reveal_strlit("HYPERLINKBASE");
    lemma_lengths_differ("AECDEPRECATIONHISTORY"@, "HYPERLINKBASE"@);
    reveal_strlit("ADVMATERIAL");
    lemma_lengths_differ("AECDEPRECATIONHISTORY"@, "ADVMATERIAL"@);
    reveal_strlit("FBXASSET");
    lemma_lengths_differ("AECDEPRECATIONHISTORY"@, "FBXASSET"@);
    reveal_strlit("BUMPTILE");
    lemma_lengths_differ("AECDEPRECATIONHISTORY"@, "BUMPTILE"@);
    reveal_strlit("DIFFUSETILE");
    lemma_lengths_differ("AECDEPRECATIONHISTORY"@, "DIFFUSETILE"@);
    reveal_strlit("OPACITYTILE");
    lemma_lengths_differ("AECDEPRECATIONHISTORY"@, "OPACITYTILE"@);
    reveal_strlit("REFLECTIONTILE");
    lemma_lengths_differ("AECDEPRECATIONHISTORY"@, "REFLECTIONTILE"@);
    reveal_strlit("REFRACTIONTILE");
    lemma_lengths_differ("AECDEPRECATIONHISTORY"@, "REFRACTIONTILE"@);
    reveal_strlit("SPECULARTILE");
    lemma_lengths_differ("AECDEPRECATIONHISTORY"@, "SPECULARTILE"@);
    reveal_strlit("BUMP");
    lemma_lengths_differ("AECDEPRECATIONHISTORY"@, "BUMP"@);
    reveal_strlit("DIFFUSE");
    lemma_lengths_differ("AECDEPRECATIONHISTORY"@, "DIFFUSE"@);
    reveal_strlit("MATERIALDICT");
    lemma_lengths_differ("AECDEPRECATIONHISTORY"@, "MATERIALDICT"@);
    reveal_strlit("VIZ XML MATERIAL DEFINITION");
    lemma_lengths_differ("AECDEPRECATIONHISTORY"@, "VIZ XML MATERIAL DEFINITION"@);
    reveal_strlit("ACAD_MLATT");
    lemma_lengths_differ("AECDEPRECATIONHISTORY"@, "ACAD_MLATT"@);
    reveal_strlit("ACAD_VIEWS_VIEW_CUSTOM");
    lemma_lengths_differ("AECDEPRECATIONHISTORY"@, "ACAD_VIEWS_VIEW_CUSTOM"@);
    law_kind_ignores_case(s, "AECDEPRECATIONHISTORY"@);
}

proof fn lemma_key_75(s: Seq<char>)
    requires
        eq_ci(s, "CEPSNID"@),
    ensures
        known_kind_of(s) == KnownXRecordKind::Metadata,
{
    reveal_strlit("CEPSNID");
    reveal_strlit("ADSK_XREC_LAYER_ALPHA_OVR");
    lemma_lengths_differ("CEPSNID"@, "ADSK_XREC_LAYER_ALPHA_OVR"@);
    reveal_strlit("ADSK_XREC_LAYER_COLOR_OVR");
    lemma_lengths_differ("CEPSNID"@, "ADSK_XREC_LAYER_COLOR_OVR"@);
    reveal_strlit("ADSK_XREC_LAYER_LINETYPE_OVR");
    lemma_lengths_differ("CEPSNID"@, "ADSK_XREC_LAYER_LINETYPE_OVR"@);
    reveal_strlit("ADSK_XREC_LAYER_LINEWT_OVR");
    lemma_lengths_differ("CEPSNID"@, "ADSK_XREC_LAYER_LINEWT_OVR"@);
    reveal_strlit("ADSK_XREC_LAYER_RECONCILED");
    lemma_lengths_differ("CEPSNID"@, "ADSK_XREC_LAYER_RECONCILED"@);
    reveal_strlit("ACADLAYERSTATEANNOSCALE");
    lemma_lengths_differ("CEPSNID"@, "ACADLAYERSTATEANNOSCALE"@);
    reveal_strlit("ASDK_XREC_ANNOTATION_SCALE_INFO");
    lemma_lengths_differ("CEPSNID"@, "ASDK_XREC_ANNOTATION_SCALE_INFO"@);
    reveal_strlit("ASDK_XREC_ANNO_SCALE_INFO");
    lemma_lengths_differ("CEPSNID"@, "ASDK_XREC_ANNO_SCALE_INFO"@);
    reveal_strlit("ADSK_XREC_VTR_ANNOSCALE_DATA");
    lemma_lengths_differ("CEPSNID"@, "ADSK_XREC_VTR_ANNOSCALE_DATA"@);
    reveal_strlit("ADSK_XREC_SUBDVERTEXTEXCOORDS");
    lemma_lengths_differ("CEPSNID"@, "ADSK_XREC_SUBDVERTEXTEXCOORDS"@);
    reveal_strlit("ACAD_XREC_ROUNDTRIP");
    lemma_lengths_differ("CEPSNID"@, "ACAD_XREC_ROUNDTRIP"@);
    reveal_strlit("ACAD_MTEXT_RT");
    lemma_lengths_differ("CEPSNID"@, "ACAD_MTEXT_RT"@);
    reveal_strlit("ACAD_MTEXT_2008_RT");
    lemma_lengths_differ("CEPSNID"@, "ACAD_MTEXT_2008_RT"@);
    reveal_strlit("ACDBHEADERROUNDTRIPXREC");
    lemma_lengths_differ("CEPSNID"@, "ACDBHEADERROUNDTRIPXREC"@);
    reveal_strlit("AUXHDRRNDTRIPDATA");
    lemma_lengths_differ("CEPSNID"@, "AUXHDRRNDTRIPDATA"@);
    reveal_strlit("ACDB_RECOMPOSE_DATA");
    lemma_lengths_differ("CEPSNID"@, "ACDB_RECOMPOSE_DATA"@);
    reveal_strlit("ACAD_ENHANCEDBLOCKHISTORY");
    lemma_lengths_differ("CEPSNID"@, "ACAD_ENHANCEDBLOCKHISTORY"@);
    reveal_strlit("ASEBLOCKHIERARCHYINDEXRECORD");
    lemma_lengths_differ("CEPSNID"@, "ASEBLOCKHIERARCHYINDEXRECORD"@);
    reveal_strlit("ADSK_XREC_LAYOUTTHUMBNAIL");
    lemma_lengths_differ("CEPSNID"@, "ADSK_XREC_LAYOUTTHUMBNAIL"@);
    reveal_strlit("ADSK_XREC_VTRANIMATIONINFO");
    lemma_lengths_differ("CEPSNID"@, "ADSK_XREC_VTRANIMATIONINFO"@);
    reveal_strlit("ADSK_XREC_VTRTHUMBNAIL");
    lemma_lengths_differ("CEPSNID"@, "ADSK_XREC_VTRTHUMBNAIL"@);
    reveal_strlit("ADSK_XREC_VTRVIEWINFO");
    lemma_lengths_differ("CEPSNID"@, "ADSK_XREC_VTRVIEWINFO"@);
    reveal_strlit("ADSK_XREC_PHOTOMETRICLIGHTINFO");
    lemma_lengths_differ("CEPSNID"@, "ADSK_XREC_PHOTOMETRICLIGHTINFO"@);
    reveal_strlit("LIGHTINGQUALITY");
    lemma_lengths_differ("CEPSNID"@, "LIGHTINGQUALITY"@);
    reveal_strlit("ACAD_LAST_SAVED_VERSION_INFO");
    lemma_lengths_differ("CEPSNID"@, "ACAD_LAST_SAVED_VERSION_INFO"@);
    reveal_strlit("ACAD_CIP_PREVIOUS_PRODUCT_INFO");
    lemma_lengths_differ("CEPSNID"@, "ACAD_CIP_PREVIOUS_PRODUCT_INFO"@);
    reveal_strlit("DWGPROPS");
    lemma_lengths_differ("CEPSNID"@, "DWGPROPS"@);
    reveal_strlit("FINGERPRINTGUID");
    lemma_lengths_differ("CEPSNID"@, "FINGERPRINTGUID"@);
    reveal_strlit("ACADDIM");
    lemma_differ_at("CEPSNID"@, "ACADDIM"@, 0);
    reveal_strlit("DIMSTYLEDATA");
    lemma_lengths_differ("CEPSNID"@, "DIMSTYLEDATA"@);
    reveal_strlit("DIMLTEX1");
    lemma_lengths_differ("CEPSNID"@, "DIMLTEX1"@);
    reveal_strlit("DIMLTEX2");
    lemma_lengths_differ("CEPSNID"@, "DIMLTEX2"@);
    reveal_strlit("DIMLTYPE");
    lemma_lengths_differ("CEPSNID"@, "DIMLTYPE"@);
    reveal_strlit("TSTACKALIGN");
    lemma_lengths_differ("CEPSNID"@, "TSTACKALIGN"@);
    reveal_strlit("TSTACKSIZE");
    lemma_lengths_differ("CEPSNID"@, "TSTACKSIZE"@);
    reveal_strlit("PUCSBASE");
    lemma_lengths_differ("CEPSNID"@, "PUCSBASE"@);
    reveal_strlit("PUCSORGBACK");
    lemma_lengths_differ("CEPSNID"@, "PUCSORGBACK"@);
    reveal_strlit("PUCSORGBOTTOM");
    lemma_lengths_differ("CEPSNID"@, "PUCSORGBOTTOM"@);
    reveal_strlit("PUCSORGFRONT");
    lemma_lengths_differ("CEPSNID"@, "PUCSORGFRONT"@);
    reveal_strlit("PUCSORGLEFT");
    lemma_lengths_differ("CEPSNID"@, "PUCSORGLEFT"@);
    reveal_strlit("PUCSORGRIGHT");
    lemma_lengths_differ("CEPSNID"@, "PUCSORGRIGHT"@);
    reveal_strlit("PUCSORGTOP");
    lemma_lengths_differ("CEPSNID"@, "PUCSORGTOP"@);
    reveal_strlit("PUCSORTHOREF");
    lemma_lengths_differ("CEPSNID"@, "PUCSORTHOREF"@);
    reveal_strlit("PUCSORTHOVIEW");
    lemma_lengths_differ("CEPSNID"@, "PUCSORTHOVIEW"@);
    reveal_strlit("UCSBASE");
    lemma_differ_at("CEPSNID"@, "UCSBASE"@, 0);
    reveal_strlit("UCSORGBACK");
    lemma_lengths_differ("CEPSNID"@, "UCSORGBACK"@);
    reveal_strlit("UCSORGBOTTOM");
    lemma_lengths_differ("CEPSNID"@, "UCSORGBOTTOM"@);
    reveal_strlit("UCSORGFRONT");
    lemma_lengths_differ("CEPSNID"@, "UCSORGFRONT"@);
    reveal_strlit("UCSORGLEFT");
    lemma_lengths_differ("CEPSNID"@, "UCSORGLEFT"@);
    reveal_strlit("UCSORGRIGHT");
    lemma_lengths_differ("CEPSNID"@, "UCSORGRIGHT"@);
    reveal_strlit("UCSORGTOP");
    lemma_lengths_differ("CEPSNID"@, "UCSORGTOP"@);
    reveal_strlit("UCSORTHOREF");
    lemma_lengths_differ("CEPSNID"@, "UCSORTHOREF"@);
    reveal_strlit("UCSORTHOVIEW");
    lemma_lengths_differ("CEPSNID"@, "UCSORTHOVIEW"@);
    reveal_strlit("ACAD_LAYOUTSELFREF");
    lemma_lengths_differ("CEPSNID"@, "ACAD_LAYOUTSELFREF"@);
    reveal_strlit("LAYOUTDICT");
    lemma_lengths_differ("CEPSNID"@, "LAYOUTDICT"@);
    reveal_strlit("PLOTSETDICT");
    lemma_lengths_differ("CEPSNID"@, "PLOTSETDICT"@);
    reveal_strlit("PLOTSTYLNAMDICT");
    lemma_lengths_differ("CEPSNID"@, "PLOTSTYLNAMDICT"@);
    reveal_strlit("PSVPSCALE");
    lemma_lengths_differ("CEPSNID"@, "PSVPSCALE"@);
    reveal_strlit("STYLESHEET");
    lemma_lengths_differ("CEPSNID"@, "STYLESHEET"@);
    reveal_strlit("HYPERLINKBASE");
    lemma_lengths_differ("CEPSNID"@, "HYPERLINKBASE"@);
    reveal_strlit("ADVMATERIAL");
    lemma_lengths_differ("CEPSNID"@, "ADVMATERIAL"@);
    reveal_strlit("FBXASSET");
    lemma_lengths_differ("CEPSNID"@, "FBXASSET"@);
    reveal_strlit("BUMPTILE");
    lemma_lengths_differ("CEPSNID"@, "BUMPTILE"@);
    reveal_strlit("DIFFUSETILE");
    lemma_lengths_differ("CEPSNID"@, "DIFFUSETILE"@);
    reveal_strlit("OPACITYTILE");
    lemma_lengths_differ("CEPSNID"@, "OPACITYTILE"@);
    reveal_strlit("REFLECTIONTILE");
    lemma_lengths_differ("CEPSNID"@, "REFLECTIONTILE"@);
    reveal_strlit("REFRACTIONTILE");
    lemma_lengths_differ("CEPSNID"@, "REFRACTIONTILE"@);
    reveal_strlit("SPECULARTILE");
    lemma_lengths_differ("CEPSNID"@, "SPECULARTILE"@);
    reveal_strlit("BUMP");
    lemma_lengths_differ("CEPSNID"@, "BUMP"@);
    reveal_strlit("DIFFUSE");
    lemma_differ_at("CEPSNID"@, "DIFFUSE"@, 0);
    reveal_strlit("MATERIALDICT");
    lemma_lengths_differ("CEPSNID"@, "MATERIALDICT"@);
    reveal_strlit("VIZ XML MATERIAL DEFINITION");
    lemma_lengths_differ("CEPSNID"@, "VIZ XML MATERIAL DEFINITION"@);
    reveal_strlit("ACAD_MLATT");
    lemma_lengths_differ("CEPSNID"@, "ACAD_MLATT"@);
    reveal_strlit("ACAD_VIEWS_VIEW_CUSTOM");
    lemma_lengths_differ("CEPSNID"@, "ACAD_VIEWS_VIEW_CUSTOM"@);
    reveal_strlit("AECDEPRECATIONHISTORY");
    lemma_lengths_differ("CEPSNID"@, "AECDEPRECATIONHISTORY"@);
    law_kind_ignores_case(s, "CEPSNID"@);
}

proof fn lemma_key_76(s: Seq<char>)
    requires
        eq_ci(s, "CEPSNTYPE"@),
    ensures
        known_kind_of(s) == KnownXRecordKind::Metadata,
{
    reveal_strlit("CEPSNTYPE");
    reveal_strlit("ADSK_XREC_LAYER_ALPHA_OVR");
    lemma_lengths_differ("CEPSNTYPE"@, "ADSK_XREC_LAYER_ALPHA_OVR"@);
    reveal_strlit("ADSK_XREC_LAYER_COLOR_OVR");
    lemma_lengths_differ("CEPSNTYPE"@, "ADSK_XREC_LAYER_COLOR_OVR"@);
    reveal_strlit("ADSK_XREC_LAYER_LINETYPE_OVR");
    lemma_lengths_differ("CEPSNTYPE"@, "ADSK_XREC_LAYER_LINETYPE_OVR"@);
    reveal_strlit("ADSK_XREC_LAYER_LINEWT_OVR");
    lemma_lengths_differ("CEPSNTYPE"@, "ADSK_XREC_LAYER_LINEWT_OVR"@);
    reveal_strlit("ADSK_XREC_LAYER_RECONCILED");
    lemma_lengths_differ("CEPSNTYPE"@, "ADSK_XREC_LAYER_RECONCILED"@);
    reveal_strlit("ACADLAYERSTATEANNOSCALE");
    lemma_lengths_differ("CEPSNTYPE"@, "ACADLAYERSTATEANNOSCALE"@);
    reveal_strlit("ASDK_XREC_ANNOTATION_SCALE_INFO");
    lemma_lengths_differ("CEPSNTYPE"@, "ASDK_XREC_ANNOTATION_SCALE_INFO"@);
    reveal_strlit("ASDK_XREC_ANNO_SCALE_INFO");
    lemma_lengths_differ("CEPSNTYPE"@, "ASDK_XREC_ANNO_SCALE_INFO"@);
    reveal_strlit("ADSK_XREC_VTR_ANNOSCALE_DATA");
    lemma_lengths_differ("CEPSNTYPE"@, "ADSK_XREC_VTR_ANNOSCALE_DATA"@);
    reveal_strlit("ADSK_XREC_SUBDVERTEXTEXCOORDS");
    lemma_lengths_differ("CEPSNTYPE"@, "ADSK_XREC_SUBDVERTEXTEXCOORDS"@);
    reveal_strlit("ACAD_XREC_ROUNDTRIP");
    lemma_lengths_differ("CEPSNTYPE"@, "ACAD_XREC_ROUNDTRIP"@);
    reveal_strlit("ACAD_MTEXT_RT");
    lemma_lengths_differ("CEPSNTYPE"@, "ACAD_MTEXT_RT"@);
    reveal_strlit("ACAD_MTEXT_2008_RT");
    lemma_lengths_differ("CEPSNTYPE"@, "ACAD_MTEXT_2008_RT"@);
    reveal_strlit("ACDBHEADERROUNDTRIPXREC");
    lemma_lengths_differ("CEPSNTYPE"@, "ACDBHEADERROUNDTRIPXREC"@);
    reveal_strlit("AUXHDRRNDTRIPDATA");
    lemma_lengths_differ("CEPSNTYPE"@, "AUXHDRRNDTRIPDATA"@);
    reveal_strlit("ACDB_RECOMPOSE_DATA");
    lemma_lengths_differ("CEPSNTYPE"@, "ACDB_RECOMPOSE_DATA"@);
    reveal_strlit("ACAD_ENHANCEDBLOCKHISTORY");
    lemma_lengths_differ("CEPSNTYPE"@, "ACAD_ENHANCEDBLOCKHISTORY"@);
    reveal_strlit("ASEBLOCKHIERARCHYINDEXRECORD");
    lemma_lengths_differ("CEPSNTYPE"@, "ASEBLOCKHIERARCHYINDEXRECORD"@);
    reveal_strlit("ADSK_XREC_LAYOUTTHUMBNAIL");
    lemma_lengths_differ("CEPSNTYPE"@, "ADSK_XREC_LAYOUTTHUMBNAIL"@);
    reveal_strlit("ADSK_XREC_VTRANIMATIONINFO");
    lemma_lengths_differ("CEPSNTYPE"@, "ADSK_XREC_VTRANIMATIONINFO"@);
    reveal_strlit("ADSK_XREC_VTRTHUMBNAIL");
    lemma_lengths_differ("CEPSNTYPE"@, "ADSK_XREC_VTRTHUMBNAIL"@);
    reveal_strlit("ADSK_XREC_VTRVIEWINFO");
    lemma_lengths_differ("CEPSNTYPE"@, "ADSK_XREC_VTRVIEWINFO"@);
    reveal_strlit("ADSK_XREC_PHOTOMETRICLIGHTINFO");
    lemma_lengths_differ("CEPSNTYPE"@, "ADSK_XREC_PHOTOMETRICLIGHTINFO"@);
    reveal_strlit("LIGHTINGQUALITY");
    lemma_lengths_differ("CEPSNTYPE"@, "LIGHTINGQUALITY"@);
    reveal_strlit("ACAD_LAST_SAVED_VERSION_INFO");
    lemma_lengths_differ("CEPSNTYPE"@, "ACAD_LAST_SAVED_VERSION_INFO"@);
    reveal_strlit("ACAD_CIP_PREVIOUS_PRODUCT_INFO");
    lemma_lengths_differ("CEPSNTYPE"@, "ACAD_CIP_PREVIOUS_PRODUCT_INFO"@);
    reveal_strlit("DWGPROPS");
    lemma_lengths_differ("CEPSNTYPE"@, "DWGPROPS"@);
    reveal_strlit("FINGERPRINTGUID");
    lemma_lengths_differ("CEPSNTYPE"@, "FINGERPRINTGUID"@);
    reveal_strlit("ACADDIM");
    lemma_lengths_differ("CEPSNTYPE"@, "ACADDIM"@);
    reveal_strlit("DIMSTYLEDATA");
    lemma_lengths_differ("CEPSNTYPE"@, "DIMSTYLEDATA"@);
    reveal_strlit("DIMLTEX1");
    lemma_lengths_differ("CEPSNTYPE"@, "DIMLTEX1"@);
    reveal_strlit("DIMLTEX2");
    lemma_lengths_differ("CEPSNTYPE"@, "DIMLTEX2"@);
    reveal_strlit("DIMLTYPE");
    lemma_lengths_differ("CEPSNTYPE"@, "DIMLTYPE"@);
    reveal_strlit("TSTACKALIGN");
    lemma_lengths_differ("CEPSNTYPE"@, "TSTACKALIGN"@);
    reveal_strlit("TSTACKSIZE");
    lemma_lengths_differ("CEPSNTYPE"@, "TSTACKSIZE"@);
    reveal_strlit("PUCSBASE");
    lemma_lengths_differ("CEPSNTYPE"@, "PUCSBASE"@);
    reveal_strlit("PUCSORGBACK");
    lemma_lengths_differ("CEPSNTYPE"@, "PUCSORGBACK"@);
    reveal_strlit("PUCSORGBOTTOM");
    lemma_lengths_differ("CEPSNTYPE"@, "PUCSORGBOTTOM"@);
    reveal_strlit("PUCSORGFRONT");
    lemma_lengths_differ("CEPSNTYPE"@, "PUCSORGFRONT"@);
    reveal_strlit("PUCSORGLEFT");
    lemma_lengths_differ("CEPSNTYPE"@, "PUCSORGLEFT"@);
    reveal_strlit("PUCSORGRIGHT");
    lemma_lengths_differ("CEPSNTYPE"@, "PUCSORGRIGHT"@);
    reveal_strlit("PUCSORGTOP");
    lemma_lengths_differ("CEPSNTYPE"@, "PUCSORGTOP"@);
    reveal_strlit("PUCSORTHOREF");
    lemma_lengths_differ("CEPSNTYPE"@, "PUCSORTHOREF"@);
    reveal_strlit("PUCSORTHOVIEW");
    lemma_lengths_differ("CEPSNTYPE"@, "PUCSORTHOVIEW"@);
    reveal_strlit("UCSBASE");
    lemma_lengths_differ("CEPSNTYPE"@, "UCSBASE"@);
    reveal_strlit("UCSORGBACK");
    lemma_lengths_differ("CEPSNTYPE"@, "UCSORGBACK"@);
    reveal_strlit("UCSORGBOTTOM");
    lemma_lengths_differ("CEPSNTYPE"@, "UCSORGBOTTOM"@);
    reveal_strlit("UCSORGFRONT");
    lemma_lengths_differ("CEPSNTYPE"@, "UCSORGFRONT"@);
    reveal_strlit("UCSORGLEFT");
    lemma_lengths_differ("CEPSNTYPE"@, "UCSORGLEFT"@);
    reveal_strlit("UCSORGRIGHT");
    lemma_lengths_differ("CEPSNTYPE"@, "UCSORGRIGHT"@);
    reveal_strlit("UCSORGTOP");
    lemma_differ_at("CEPSNTYPE"@, "UCSORGTOP"@, 0);
    reveal_strlit("UCSORTHOREF");
    lemma_lengths_differ("CEPSNTYPE"@, "UCSORTHOREF"@);
    reveal_strlit("UCSORTHOVIEW");
    lemma_lengths_differ("CEPSNTYPE"@, "UCSORTHOVIEW"@);
    reveal_strlit("ACAD_LAYOUTSELFREF");
    lemma_lengths_differ("CEPSNTYPE"@, "ACAD_LAYOUTSELFREF"@);
    reveal_strlit("LAYOUTDICT");
    lemma_lengths_differ("CEPSNTYPE"@, "LAYOUTDICT"@);
    reveal_strlit("PLOTSETDICT");
    lemma_lengths_differ("CEPSNTYPE"@, "PLOTSETDICT"@);
    reveal_strlit("PLOTSTYLNAMDICT");
    lemma_lengths_differ("CEPSNTYPE"@, "PLOTSTYLNAMDICT"@);
    reveal_strlit("PSVPSCALE");
    lemma_differ_at("CEPSNTYPE"@, "PSVPSCALE"@, 0);
    reveal_strlit("STYLESHEET");
    lemma_lengths_differ("CEPSNTYPE"@, "STYLESHEET"@);
    reveal_strlit("HYPERLINKBASE");
    lemma_lengths_differ("CEPSNTYPE"@, "HYPERLINKBASE"@);
    reveal_strlit("ADVMATERIAL");
    lemma_lengths_differ("CEPSNTYPE"@, "ADVMATERIAL"@);
    reveal_strlit("FBXASSET");
    lemma_lengths_differ("CEPSNTYPE"@, "FBXASSET"@);
    reveal_strlit("BUMPTILE");
    lemma_lengths_differ("CEPSNTYPE"@, "BUMPTILE"@);
    reveal_strlit("DIFFUSETILE");
    lemma_lengths_differ("CEPSNTYPE"@, "DIFFUSETILE"@);
    reveal_strlit("OPACITYTILE");
    lemma_lengths_differ("CEPSNTYPE"@, "OPACITYTILE"@);
    reveal_strlit("REFLECTIONTILE");
    lemma_lengths_differ("CEPSNTYPE"@, "REFLECTIONTILE"@);
    reveal_strlit("REFRACTIONTILE");
    lemma_lengths_differ("CEPSNTYPE"@, "REFRACTIONTILE"@);
    reveal_strlit("SPECULARTILE");
    lemma_lengths_differ("CEPSNTYPE"@, "SPECULARTILE"@);
    reveal_strlit("BUMP");
    lemma_lengths_differ("CEPSNTYPE"@, "BUMP"@);
    reveal_strlit("DIFFUSE");
    lemma_lengths_differ("CEPSNTYPE"@, "DIFFUSE"@);
    reveal_strlit("MATERIALDICT");
    lemma_lengths_differ("CEPSNTYPE"@, "MATERIALDICT"@);
    reveal_strlit("VIZ XML MATERIAL DEFINITION");
    lemma_lengths_differ("CEPSNTYPE"@, "VIZ XML MATERIAL DEFINITION"@);
    reveal_strlit("ACAD_MLATT");
    lemma_lengths_differ("CEPSNTYPE"@, "ACAD_MLATT"@);
    reveal_strlit("ACAD_VIEWS_VIEW_CUSTOM");
    lemma_lengths_differ("CEPSNTYPE"@, "ACAD_VIEWS_VIEW_CUSTOM"@);
    reveal_strlit("AECDEPRECATIONHISTORY");
    lemma_lengths_differ("CEPSNTYPE"@, "AECDEPRECATIONHISTORY"@);
    reveal_strlit("CEPSNID");
    lemma_lengths_differ("CEPSNTYPE"@, "CEPSNID"@);
    law_kind_ignores_case(s, "CEPSNTYPE"@);
}

proof fn lemma_key_77(s: Seq<char>)
    requires
        eq_ci(s, "COLORDICT"@),
    ensures
        known_kind_of(s) == KnownXRecordKind::Metadata,
{
    reveal_strlit("COLORDICT");
    reveal_strlit("ADSK_XREC_LAYER_ALPHA_OVR");
    lemma_lengths_differ("COLORDICT"@, "ADSK_XREC_LAYER_ALPHA_OVR"@);
    reveal_strlit("ADSK_XREC_LAYER_COLOR_OVR");
    lemma_lengths_differ("COLORDICT"@, "ADSK_XREC_LAYER_COLOR_OVR"@);
    reveal_strlit("ADSK_XREC_LAYER_LINETYPE_OVR");
    lemma_lengths_differ("COLORDICT"@, "ADSK_XREC_LAYER_LINETYPE_OVR"@);
    reveal_strlit("ADSK_XREC_LAYER_LINEWT_OVR");
    lemma_lengths_differ("COLORDICT"@, "ADSK_XREC_LAYER_LINEWT_OVR"@);
    reveal_strlit("ADSK_XREC_LAYER_RECONCILED");
    lemma_lengths_differ("COLORDICT"@, "ADSK_XREC_LAYER_RECONCILED"@);
    reveal_strlit("ACADLAYERSTATEANNOSCALE");
    lemma_lengths_differ("COLORDICT"@, "ACADLAYERSTATEANNOSCALE"@);
    reveal_strlit("ASDK_XREC_ANNOTATION_SCALE_INFO");
    lemma_lengths_differ("COLORDICT"@, "ASDK_XREC_ANNOTATION_SCALE_INFO"@);
    reveal_strlit("ASDK_XREC_ANNO_SCALE_INFO");
    lemma_lengths_differ("COLORDICT"@, "ASDK_XREC_ANNO_SCALE_INFO"@);
    reveal_strlit("ADSK_XREC_VTR_ANNOSCALE_DATA");
    lemma_lengths_differ("COLORDICT"@, "ADSK_XREC_VTR_ANNOSCALE_DATA"@);
    reveal_strlit("ADSK_XREC_SUBDVERTEXTEXCOORDS");
    lemma_lengths_differ("COLORDICT"@, "ADSK_XREC_SUBDVERTEXTEXCOORDS"@);
    reveal_strlit("ACAD_XREC_ROUNDTRIP");
    lemma_lengths_differ("COLORDICT"@, "ACAD_XREC_ROUNDTRIP"@);
    reveal_strlit("ACAD_MTEXT_RT");
    lemma_lengths_differ("COLORDICT"@, "ACAD_MTEXT_RT"@);
    reveal_strlit("ACAD_MTEXT_2008_RT");
    lemma_lengths_differ("COLORDICT"@, "ACAD_MTEXT_2008_RT"@);
    reveal_strlit("ACDBHEADERROUNDTRIPXREC");
    lemma_lengths_differ("COLORDICT"@, "ACDBHEADERROUNDTRIPXREC"@);
    reveal_strlit("AUXHDRRNDTRIPDATA");
    lemma_lengths_differ("COLORDICT"@, "AUXHDRRNDTRIPDATA"@);
    reveal_strlit("ACDB_RECOMPOSE_DATA");
    lemma_lengths_differ("COLORDICT"@, "ACDB_RECOMPOSE_DATA"@);
    reveal_strlit("ACAD_ENHANCEDBLOCKHISTORY");
    lemma_lengths_differ("COLORDICT"@, "ACAD_ENHANCEDBLOCKHISTORY"@);
    reveal_strlit("ASEBLOCKHIERARCHYINDEXRECORD");
    lemma_lengths_differ("COLORDICT"@, "ASEBLOCKHIERARCHYINDEXRECORD"@);
    reveal_strlit("ADSK_XREC_LAYOUTTHUMBNAIL");
    lemma_lengths_differ("COLORDICT"@, "ADSK_XREC_LAYOUTTHUMBNAIL"@);
    reveal_strlit("ADSK_XREC_VTRANIMATIONINFO");
    lemma_lengths_differ("COLORDICT"@, "ADSK_XREC_VTRANIMATIONINFO"@);
    reveal_strlit("ADSK_XREC_VTRTHUMBNAIL");
    lemma_lengths_differ("COLORDICT"@, "ADSK_XREC_VTRTHUMBNAIL"@);
    reveal_strlit("ADSK_XREC_VTRVIEWINFO");
    lemma_lengths_differ("COLORDICT"@, "ADSK_XREC_VTRVIEWINFO"@);
    reveal_strlit("ADSK_XREC_PHOTOMETRICLIGHTINFO");
    lemma_lengths_differ("COLORDICT"@, "ADSK_XREC_PHOTOMETRICLIGHTINFO"@);
    reveal_strlit("LIGHTINGQUALITY");
    lemma_lengths_differ("COLORDICT"@, "LIGHTINGQUALITY"@);
    reveal_strlit("ACAD_LAST_SAVED_VERSION_INFO");
    lemma_lengths_differ("COLORDICT"@, "ACAD_LAST_SAVED_VERSION_INFO"@);
    reveal_strlit("ACAD_CIP_PREVIOUS_PRODUCT_INFO");
    lemma_lengths_differ("COLORDICT"@, "ACAD_CIP_PREVIOUS_PRODUCT_INFO"@);
    reveal_strlit("DWGPROPS");
    lemma_lengths_differ("COLORDICT"@, "DWGPROPS"@);
    reveal_strlit("FINGERPRINTGUID");
    lemma_lengths_differ("COLORDICT"@, "FINGERPRINTGUID"@);
    reveal_strlit("ACADDIM");
    lemma_lengths_differ("COLORDICT"@, "ACADDIM"@);
    reveal_strlit("DIMSTYLEDATA");
    lemma_lengths_differ("COLORDICT"@, "DIMSTYLEDATA"@);
    reveal_strlit("DIMLTEX1");
    lemma_lengths_differ("COLORDICT"@, "DIMLTEX1"@);
    reveal_strlit("DIMLTEX2");
    lemma_lengths_differ("COLORDICT"@, "DIMLTEX2"@);
    reveal_strlit("DIMLTYPE");
    lemma_lengths_differ("COLORDICT"@, "DIMLTYPE"@);
    reveal_strlit("TSTACKALIGN");
    lemma_lengths_differ("COLORDICT"@, "TSTACKALIGN"@);
    reveal_strlit("TSTACKSIZE");
    lemma_lengths_differ("COLORDICT"@, "TSTACKSIZE"@);
    reveal_strlit("PUCSBASE");
    lemma_lengths_differ("COLORDICT"@, "PUCSBASE"@);
    reveal_strlit("PUCSORGBACK");
    lemma_lengths_differ("COLORDICT"@, "PUCSORGBACK"@);
    reveal_strlit("PUCSORGBOTTOM");
    lemma_lengths_differ("COLORDICT"@, "PUCSORGBOTTOM"@);
    reveal_strlit("PUCSORGFRONT");
    lemma_lengths_differ("COLORDICT"@, "PUCSORGFRONT"@);
    reveal_strlit("PUCSORGLEFT");
    lemma_lengths_differ("COLORDICT"@, "PUCSORGLEFT"@);
    reveal_strlit("PUCSORGRIGHT");
    lemma_lengths_differ("COLORDICT"@, "PUCSORGRIGHT"@);
    reveal_strlit("PUCSORGTOP");
    lemma_lengths_differ("COLORDICT"@, "PUCSORGTOP"@);
    reveal_strlit("PUCSORTHOREF");
    lemma_lengths_differ("COLORDICT"@, "PUCSORTHOREF"@);
    reveal_strlit("PUCSORTHOVIEW");
    lemma_lengths_differ("COLORDICT"@, "PUCSORTHOVIEW"@);
    reveal_strlit("UCSBASE");
    lemma_lengths_differ("COLORDICT"@, "UCSBASE"@);
    reveal_strlit("UCSORGBACK");
    lemma_lengths_differ("COLORDICT"@, "UCSORGBACK"@);
    reveal_strlit("UCSORGBOTTOM");
    lemma_lengths_differ("COLORDICT"@, "UCSORGBOTTOM"@);
    reveal_strlit("UCSORGFRONT");
    lemma_lengths_differ("COLORDICT"@, "UCSORGFRONT"@);
    reveal_strlit("UCSORGLEFT");
    lemma_lengths_differ("COLORDICT"@, "UCSORGLEFT"@);
    reveal_strlit("UCSORGRIGHT");
    lemma_lengths_differ("COLORDICT"@, "UCSORGRIGHT"@);
    reveal_strlit("UCSORGTOP");
    lemma_differ_at("COLORDICT"@, "UCSORGTOP"@, 0);
    reveal_strlit("UCSORTHOREF");
    lemma_lengths_differ("COLORDICT"@, "UCSORTHOREF"@);
    reveal_strlit("UCSORTHOVIEW");
    lemma_lengths_differ("COLORDICT"@, "UCSORTHOVIEW"@);
    reveal_strlit("ACAD_LAYOUTSELFREF");
    lemma_lengths_differ("COLORDICT"@, "ACAD_LAYOUTSELFREF"@);
    reveal_strlit("LAYOUTDICT");
    lemma_lengths_differ("COLORDICT"@, "LAYOUTDICT"@);
    reveal_strlit("PLOTSETDICT");
    lemma_lengths_differ("COLORDICT"@, "PLOTSETDICT"@);
    reveal_strlit("PLOTSTYLNAMDICT");
    lemma_lengths_differ("COLORDICT"@, "PLOTSTYLNAMDICT"@);
    reveal_strlit("PSVPSCALE");
    lemma_differ_at("COLORDICT"@, "PSVPSCALE"@, 0);
    reveal_strlit("STYLESHEET");
    lemma_lengths_differ("COLORDICT"@, "STYLESHEET"@);
    reveal_strlit("HYPERLINKBASE");
    lemma_lengths_differ("COLORDICT"@, "HYPERLINKBASE"@);
    reveal_strlit("ADVMATERIAL");
    lemma_lengths_differ("COLORDICT"@, "ADVMATERIAL"@);
    reveal_strlit("FBXASSET");
    lemma_lengths_differ("COLORDICT"@, "FBXASSET"@);
    reveal_strlit("BUMPTILE");
    lemma_lengths_differ("COLORDICT"@, "BUMPTILE"@);
    reveal_strlit("DIFFUSETILE");
    lemma_lengths_differ("COLORDICT"@, "DIFFUSETILE"@);
    reveal_strlit("OPACITYTILE");
    lemma_lengths_differ("COLORDICT"@, "OPACITYTILE"@);
    reveal_strlit("REFLECTIONTILE");
    lemma_lengths_differ("COLORDICT"@, "REFLECTIONTILE"@);
    reveal_strlit("REFRACTIONTILE");
    lemma_lengths_differ("COLORDICT"@, "REFRACTIONTILE"@);
    reveal_strlit("SPECULARTILE");
    lemma_lengths_differ("COLORDICT"@, "SPECULARTILE"@);
    reveal_strlit("BUMP");
    lemma_lengths_differ("COLORDICT"@, "BUMP"@);
    reveal_strlit("DIFFUSE");
    lemma_lengths_differ("COLORDICT"@, "DIFFUSE"@);
    reveal_strlit("MATERIALDICT");
    lemma_lengths_differ("COLORDICT"@, "MATERIALDICT"@);
    reveal_strlit("VIZ XML MATERIAL DEFINITION");
    lemma_lengths_differ("COLORDICT"@, "VIZ XML MATERIAL DEFINITION"@);
    reveal_strlit("ACAD_MLATT");
    lemma_lengths_differ("COLORDICT"@, "ACAD_MLATT"@);
    reveal_strlit("ACAD_VIEWS_VIEW_CUSTOM");
    lemma_lengths_differ("COLORDICT"@, "ACAD_VIEWS_VIEW_CUSTOM"@);
    reveal_strlit("AECDEPRECATIONHISTORY");
    lemma_lengths_differ("COLORDICT"@, "AECDEPRECATIONHISTORY"@);
    reveal_strlit("CEPSNID");
    lemma_lengths_differ("COLORDICT"@, "CEPSNID"@);
    reveal_strlit("CEPSNTYPE");
    lemma_differ_at("COLORDICT"@, "CEPSNTYPE"@, 1);
    law_kind_ignores_case(s, "COLORDICT"@);
}

proof fn lemma_key_78(s: Seq<char>)
    requires
        eq_ci(s, "INSUNITS"@),
    ensures
        known_kind_of(s) == KnownXRecordKind::Metadata,
{
    reveal_strlit("INSUNITS");
    reveal_strlit("ADSK_XREC_LAYER_ALPHA_OVR");
    lemma_lengths_differ("INSUNITS"@, "ADSK_XREC_LAYER_ALPHA_OVR"@);
    reveal_strlit("ADSK_XREC_LAYER_COLOR_OVR");
    lemma_lengths_differ("INSUNITS"@, "ADSK_XREC_LAYER_COLOR_OVR"@);
    reveal_strlit("ADSK_XREC_LAYER_LINETYPE_OVR");
    lemma_lengths_differ("INSUNITS"@, "ADSK_XREC_LAYER_LINETYPE_OVR"@);
    reveal_strlit("ADSK_XREC_LAYER_LINEWT_OVR");
    lemma_lengths_differ("INSUNITS"@, "ADSK_XREC_LAYER_LINEWT_OVR"@);
    reveal_strlit("ADSK_XREC_LAYER_RECONCILED");
    lemma_lengths_differ("INSUNITS"@, "ADSK_XREC_LAYER_RECONCILED"@);
    reveal_strlit("ACADLAYERSTATEANNOSCALE");
    lemma_lengths_differ("INSUNITS"@, "ACADLAYERSTATEANNOSCALE"@);
    reveal_strlit("ASDK_XREC_ANNOTATION_SCALE_INFO");
    lemma_lengths_differ("INSUNITS"@, "ASDK_XREC_ANNOTATION_SCALE_INFO"@);
    reveal_strlit("ASDK_XREC_ANNO_SCALE_INFO");
    lemma_lengths_differ("INSUNITS"@, "ASDK_XREC_ANNO_SCALE_INFO"@);
    reveal_strlit("ADSK_XREC_VTR_ANNOSCALE_DATA");
    lemma_lengths_differ("INSUNITS"@, "ADSK_XREC_VTR_ANNOSCALE_DATA"@);
    reveal_strlit("ADSK_XREC_SUBDVERTEXTEXCOORDS");
    lemma_lengths_differ("INSUNITS"@, "ADSK_XREC_SUBDVERTEXTEXCOORDS"@);
    reveal_strlit("ACAD_XREC_ROUNDTRIP");
    lemma_lengths_differ("INSUNITS"@, "ACAD_XREC_ROUNDTRIP"@);
    reveal_strlit("ACAD_MTEXT_RT");
    lemma_lengths_differ("INSUNITS"@, "ACAD_MTEXT_RT"@);
    reveal_strlit("ACAD_MTEXT_2008_RT");
    lemma_lengths_differ("INSUNITS"@, "ACAD_MTEXT_2008_RT"@);
    reveal_strlit("ACDBHEADERROUNDTRIPXREC");
    lemma_lengths_differ("INSUNITS"@, "ACDBHEADERROUNDTRIPXREC"@);
    reveal_strlit("AUXHDRRNDTRIPDATA");
    lemma_lengths_differ("INSUNITS"@, "AUXHDRRNDTRIPDATA"@);
    reveal_strlit("ACDB_RECOMPOSE_DATA");
    lemma_lengths_differ("INSUNITS"@, "ACDB_RECOMPOSE_DATA"@);
    reveal_strlit("ACAD_ENHANCEDBLOCKHISTORY");
    lemma_lengths_differ("INSUNITS"@, "ACAD_ENHANCEDBLOCKHISTORY"@);
    reveal_strlit("ASEBLOCKHIERARCHYINDEXRECORD");
    lemma_lengths_differ("INSUNITS"@, "ASEBLOCKHIERARCHYINDEXRECORD"@);
    reveal_strlit("ADSK_XREC_LAYOUTTHUMBNAIL");
    lemma_lengths_differ("INSUNITS"@, "ADSK_XREC_LAYOUTTHUMBNAIL"@);
    reveal_strlit("ADSK_XREC_VTRANIMATIONINFO");
    lemma_lengths_differ("INSUNITS"@, "ADSK_XREC_VTRANIMATIONINFO"@);
    reveal_strlit("ADSK_XREC_VTRTHUMBNAIL");
    lemma_lengths_differ("INSUNITS"@, "ADSK_XREC_VTRTHUMBNAIL"@);
    reveal_strlit("ADSK_XREC_VTRVIEWINFO");
    lemma_lengths_differ("INSUNITS"@, "ADSK_XREC_VTRVIEWINFO"@);
    reveal_strlit("ADSK_XREC_PHOTOMETRICLIGHTINFO");
    lemma_lengths_differ("INSUNITS"@, "ADSK_XREC_PHOTOMETRICLIGHTINFO"@);
    reveal_strlit("LIGHTINGQUALITY");
    lemma_lengths_differ("INSUNITS"@, "LIGHTINGQUALITY"@);
    reveal_strlit("ACAD_LAST_SAVED_VERSION_INFO");
    lemma_lengths_differ("INSUNITS"@, "ACAD_LAST_SAVED_VERSION_INFO"@);
    reveal_strlit("ACAD_CIP_PREVIOUS_PRODUCT_INFO");
    lemma_lengths_differ("INSUNITS"@, "ACAD_CIP_PREVIOUS_PRODUCT_INFO"@);
    reveal_strlit("DWGPROPS");
    lemma_differ_at("INSUNITS"@, "DWGPROPS"@, 0);
    reveal_strlit("FINGERPRINTGUID");
    lemma_lengths_differ("INSUNITS"@, "FINGERPRINTGUID"@);
    reveal_strlit("ACADDIM");
    lemma_lengths_differ("INSUNITS"@, "ACADDIM"@);
    reveal_strlit("DIMSTYLEDATA");
    lemma_lengths_differ("INSUNITS"@, "DIMSTYLEDATA"@);
    reveal_strlit("DIMLTEX1");
    lemma_differ_at("INSUNITS"@, "DIMLTEX1"@, 0);
    reveal_strlit("DIMLTEX2");
    lemma_differ_at("INSUNITS"@, "DIMLTEX2"@, 0);
    reveal_strlit("DIMLTYPE");
    lemma_differ_at("INSUNITS"@, "DIMLTYPE"@, 0);
    reveal_strlit("TSTACKALIGN");
    lemma_lengths_differ("INSUNITS"@, "TSTACKALIGN"@);
    reveal_strlit("TSTACKSIZE");
    lemma_lengths_differ("INSUNITS"@, "TSTACKSIZE"@);
    reveal_strlit("PUCSBASE");
    lemma_differ_at("INSUNITS"@, "PUCSBASE"@, 0);
    reveal_strlit("PUCSORGBACK");
    lemma_lengths_differ("INSUNITS"@, "PUCSORGBACK"@);
    reveal_strlit("PUCSORGBOTTOM");
    lemma_lengths_differ("INSUNITS"@, "PUCSORGBOTTOM"@);
    reveal_strlit("PUCSORGFRONT");
    lemma_lengths_differ("INSUNITS"@, "PUCSORGFRONT"@);
    reveal_strlit("PUCSORGLEFT");
    lemma_lengths_differ("INSUNITS"@, "PUCSORGLEFT"@);
    reveal_strlit("PUCSORGRIGHT");
    lemma_lengths_differ("INSUNITS"@, "PUCSORGRIGHT"@);
    reveal_strlit("PUCSORGTOP");
    lemma_lengths_differ("INSUNITS"@, "PUCSORGTOP"@);
    reveal_strlit("PUCSORTHOREF");
    lemma_lengths_differ("INSUNITS"@, "PUCSORTHOREF"@);
    reveal_strlit("PUCSORTHOVIEW");
    lemma_lengths_differ("INSUNITS"@, "PUCSORTHOVIEW"@);
    reveal_strlit("UCSBASE");
    lemma_lengths_differ("INSUNITS"@, "UCSBASE"@);
    reveal_strlit("UCSORGBACK");
    lemma_lengths_differ("INSUNITS"@, "UCSORGBACK"@);
    reveal_strlit("UCSORGBOTTOM");
    lemma_lengths_differ("INSUNITS"@, "UCSORGBOTTOM"@);
    reveal_strlit("UCSORGFRONT");
    lemma_lengths_differ("INSUNITS"@, "UCSORGFRONT"@);
    reveal_strlit("UCSORGLEFT");
    lemma_lengths_differ("INSUNITS"@, "UCSORGLEFT"@);
    reveal_strlit("UCSORGRIGHT");
    lemma_lengths_differ("INSUNITS"@, "UCSORGRIGHT"@);
    reveal_strlit("UCSORGTOP");
    lemma_lengths_differ("INSUNITS"@, "UCSORGTOP"@);
    reveal_strlit("UCSORTHOREF");
    lemma_lengths_differ("INSUNITS"@, "UCSORTHOREF"@);
    reveal_strlit("UCSORTHOVIEW");
    lemma_lengths_differ("INSUNITS"@, "UCSORTHOVIEW"@);
    reveal_strlit("ACAD_LAYOUTSELFREF");
    lemma_lengths_differ("INSUNITS"@, "ACAD_LAYOUTSELFREF"@);
    reveal_strlit("LAYOUTDICT");
    lemma_lengths_differ("INSUNITS"@, "LAYOUTDICT"@);
    reveal_strlit("PLOTSETDICT");
    lemma_lengths_differ("INSUNITS"@, "PLOTSETDICT"@);
    reveal_strlit("PLOTSTYLNAMDICT");
    lemma_lengths_differ("INSUNITS"@, "PLOTSTYLNAMDICT"@);
    reveal_strlit("PSVPSCALE");
    lemma_lengths_differ("INSUNITS"@, "PSVPSCALE"@);
    reveal_strlit("STYLESHEET");
    lemma_lengths_differ("INSUNITS"@, "STYLESHEET"@);
    reveal_strlit("HYPERLINKBASE");
    lemma_lengths_differ("INSUNITS"@, "HYPERLINKBASE"@);
    reveal_strlit("ADVMATERIAL");
    lemma_lengths_differ("INSUNITS"@, "ADVMATERIAL"@);
    reveal_strlit("FBXASSET");
    lemma_differ_at("INSUNITS"@, "FBXASSET"@, 0);
    reveal_strlit("BUMPTILE");
    lemma_differ_at("INSUNITS"@, "BUMPTILE"@, 0);
    reveal_strlit("DIFFUSETILE");
    lemma_lengths_differ("INSUNITS"@, "DIFFUSETILE"@);
    reveal_strlit("OPACITYTILE");
    lemma_lengths_differ("INSUNITS"@, "OPACITYTILE"@);
    reveal_strlit("REFLECTIONTILE");
    lemma_lengths_differ("INSUNITS"@, "REFLECTIONTILE"@);
    reveal_strlit("REFRACTIONTILE");
    lemma_lengths_differ("INSUNITS"@, "REFRACTIONTILE"@);
    reveal_strlit("SPECULARTILE");
    lemma_lengths_differ("INSUNITS"@, "SPECULARTILE"@);
    reveal_strlit("BUMP");
    lemma_lengths_differ("INSUNITS"@, "BUMP"@);
    reveal_strlit("DIFFUSE");
    lemma_lengths_differ("INSUNITS"@, "DIFFUSE"@);
    reveal_strlit("MATERIALDICT");
    lemma_lengths_differ("INSUNITS"@, "MATERIALDICT"@);
    reveal_strlit("VIZ XML MATERIAL DEFINITION");
    lemma_lengths_differ("INSUNITS"@, "VIZ XML MATERIAL DEFINITION"@);
    reveal_strlit("ACAD_MLATT");
    lemma_lengths_differ("INSUNITS"@, "ACAD_MLATT"@);
    reveal_strlit("ACAD_VIEWS_VIEW_CUSTOM");
    lemma_lengths_differ("INSUNITS"@, "ACAD_VIEWS_VIEW_CUSTOM"@);
    reveal_strlit("AECDEPRECATIONHISTORY");
    lemma_lengths_differ("INSUNITS"@, "AECDEPRECATIONHISTORY"@);
    reveal_strlit("CEPSNID");
    lemma_lengths_differ("INSUNITS"@, "CEPSNID"@);
    reveal_strlit("CEPSNTYPE");
    lemma_lengths_differ("INSUNITS"@, "CEPSNTYPE"@);
    reveal_strlit("COLORDICT");
    lemma_lengths_differ("INSUNITS"@, "COLORDICT"@);
    law_kind_ignores_case(s, "INSUNITS"@);
}

proof fn lemma_key_79(s: Seq<char>)
    requires
        eq_ci(s, "LWETCUNION"@),
    ensures
        known_kind_of(s) == KnownXRecordKind::Metadata,
{
    reveal_strlit("LWETCUNION");
    reveal_strlit("ADSK_XREC_LAYER_ALPHA_OVR");
    lemma_lengths_differ("LWETCUNION"@, "ADSK_XREC_LAYER_ALPHA_OVR"@);
    reveal_strlit("ADSK_XREC_LAYER_COLOR_OVR");
    lemma_lengths_differ("LWETCUNION"@, "ADSK_XREC_LAYER_COLOR_OVR"@);
    reveal_strlit("ADSK_XREC_LAYER_LINETYPE_OVR");
    lemma_lengths_differ("LWETCUNION"@, "ADSK_XREC_LAYER_LINETYPE_OVR"@);
    reveal_strlit("ADSK_XREC_LAYER_LINEWT_OVR");
    lemma_lengths_differ("LWETCUNION"@, "ADSK_XREC_LAYER_LINEWT_OVR"@);
    reveal_strlit("ADSK_XREC_LAYER_RECONCILED");
    lemma_lengths_differ("LWETCUNION"@, "ADSK_XREC_LAYER_RECONCILED"@);
    reveal_strlit("ACADLAYERSTATEANNOSCALE");
    lemma_lengths_differ("LWETCUNION"@, "ACADLAYERSTATEANNOSCALE"@);
    reveal_strlit("ASDK_XREC_ANNOTATION_SCALE_INFO");
    lemma_lengths_differ("LWETCUNION"@, "ASDK_XREC_ANNOTATION_SCALE_INFO"@);
    reveal_strlit("ASDK_XREC_ANNO_SCALE_INFO");
    lemma_lengths_differ("LWETCUNION"@, "ASDK_XREC_ANNO_SCALE_INFO"@);
    reveal_strlit("ADSK_XREC_VTR_ANNOSCALE_DATA");
    lemma_lengths_differ("LWETCUNION"@, "ADSK_XREC_VTR_ANNOSCALE_DATA"@);
    reveal_strlit("ADSK_XREC_SUBDVERTEXTEXCOORDS");
    lemma_lengths_differ("LWETCUNION"@, "ADSK_XREC_SUBDVERTEXTEXCOORDS"@);
    reveal_strlit("ACAD_XREC_ROUNDTRIP");
    lemma_lengths_differ("LWETCUNION"@, "ACAD_XREC_ROUNDTRIP"@);
    reveal_strlit("ACAD_MTEXT_RT");
    lemma_lengths_differ("LWETCUNION"@, "ACAD_MTEXT_RT"@);
    reveal_strlit("ACAD_MTEXT_2008_RT");
    lemma_lengths_differ("LWETCUNION"@, "ACAD_MTEXT_2008_RT"@);
    reveal_strlit("ACDBHEADERROUNDTRIPXREC");
    lemma_lengths_differ("LWETCUNION"@, "ACDBHEADERROUNDTRIPXREC"@);
    reveal_strlit("AUXHDRRNDTRIPDATA");
    lemma_lengths_differ("LWETCUNION"@, "AUXHDRRNDTRIPDATA"@);
    reveal_strlit("ACDB_RECOMPOSE_DATA");
    lemma_lengths_differ("LWETCUNION"@, "ACDB_RECOMPOSE_DATA"@);
    reveal_strlit("ACAD_ENHANCEDBLOCKHISTORY");
    lemma_lengths_differ("LWETCUNION"@, "ACAD_ENHANCEDBLOCKHISTORY"@);
    reveal_strlit("ASEBLOCKHIERARCHYINDEXRECORD");
    lemma_lengths_differ("LWETCUNION"@, "ASEBLOCKHIERARCHYINDEXRECORD"@);
    reveal_strlit("ADSK_XREC_LAYOUTTHUMBNAIL");
    lemma_lengths_differ("LWETCUNION"@, "ADSK_XREC_LAYOUTTHUMBNAIL"@);
    reveal_strlit("ADSK_XREC_VTRANIMATIONINFO");
    lemma_lengths_differ("LWETCUNION"@, "ADSK_XREC_VTRANIMATIONINFO"@);
    reveal_strlit("ADSK_XREC_VTRTHUMBNAIL");
    lemma_lengths_differ("LWETCUNION"@, "ADSK_XREC_VTRTHUMBNAIL"@);
    reveal_strlit("ADSK_XREC_VTRVIEWINFO");
    lemma_lengths_differ("LWETCUNION"@, "ADSK_XREC_VTRVIEWINFO"@);
    reveal_strlit("ADSK_XREC_PHOTOMETRICLIGHTINFO");
    lemma_lengths_differ("LWETCUNION"@, "ADSK_XREC_PHOTOMETRICLIGHTINFO"@);
    reveal_strlit("LIGHTINGQUALITY");
    lemma_lengths_differ("LWETCUNION"@, "LIGHTINGQUALITY"@);
    reveal_strlit("ACAD_LAST_SAVED_VERSION_INFO");
    lemma_lengths_differ("LWETCUNION"@, "ACAD_LAST_SAVED_VERSION_INFO"@);
    reveal_strlit("ACAD_CIP_PREVIOUS_PRODUCT_INFO");
    lemma_lengths_differ("LWETCUNION"@, "ACAD_CIP_PREVIOUS_PRODUCT_INFO"@);
    reveal_strlit("DWGPROPS");
    lemma_lengths_differ("LWETCUNION"@, "DWGPROPS"@);
    reveal_strlit("FINGERPRINTGUID");
    lemma_lengths_differ("LWETCUNION"@, "FINGERPRINTGUID"@);
    reveal_strlit("ACADDIM");
    lemma_lengths_differ("LWETCUNION"@, "ACADDIM"@);
    reveal_strlit("DIMSTYLEDATA");
    lemma_lengths_differ("LWETCUNION"@, "DIMSTYLEDATA"@);
    reveal_strlit("DIMLTEX1");
    lemma_lengths_differ("LWETCUNION"@, "DIMLTEX1"@);
    reveal_strlit("DIMLTEX2");
    lemma_lengths_differ("LWETCUNION"@, "DIMLTEX2"@);
    reveal_strlit("DIMLTYPE");
    lemma_lengths_differ("LWETCUNION"@, "DIMLTYPE"@);
    reveal_strlit("TSTACKALIGN");
    lemma_lengths_differ("LWETCUNION"@, "TSTACKALIGN"@);
    reveal_strlit("TSTACKSIZE");
    lemma_differ_at("LWETCUNION"@, "TSTACKSIZE"@, 0);
    reveal_strlit("PUCSBASE");
    lemma_lengths_differ("LWETCUNION"@, "PUCSBASE"@);
    reveal_strlit("PUCSORGBACK");
    lemma_lengths_differ("LWETCUNION"@, "PUCSORGBACK"@);
    reveal_strlit("PUCSORGBOTTOM");
    lemma_lengths_differ("LWETCUNION"@, "PUCSORGBOTTOM"@);
    reveal_strlit("PUCSORGFRONT");
    lemma_lengths_differ("LWETCUNION"@, "PUCSORGFRONT"@);
    reveal_strlit("PUCSORGLEFT");
    lemma_lengths_differ("LWETCUNION"@, "PUCSORGLEFT"@);
    reveal_strlit("PUCSORGRIGHT");
    lemma_lengths_differ("LWETCUNION"@, "PUCSORGRIGHT"@);
    reveal_strlit("PUCSORGTOP");
    lemma_differ_at("LWETCUNION"@, "PUCSORGTOP"@, 0);
    reveal_strlit("PUCSORTHOREF");
    lemma_lengths_differ("LWETCUNION"@, "PUCSORTHOREF"@);
    reveal_strlit("PUCSORTHOVIEW");
    lemma_lengths_differ("LWETCUNION"@, "PUCSORTHOVIEW"@);
    reveal_strlit("UCSBASE");
    lemma_lengths_differ("LWETCUNION"@, "UCSBASE"@);
    reveal_strlit("UCSORGBACK");
    lemma_differ_at("LWETCUNION"@, "UCSORGBACK"@, 0);
    reveal_strlit("UCSORGBOTTOM");
    lemma_lengths_differ("LWETCUNION"@, "UCSORGBOTTOM"@);
    reveal_strlit("UCSORGFRONT");
    lemma_lengths_differ("LWETCUNION"@, "UCSORGFRONT"@);
    reveal_strlit("UCSORGLEFT");
    lemma_differ_at("LWETCUNION"@, "UCSORGLEFT"@, 0);
    reveal_strlit("UCSORGRIGHT");
    lemma_lengths_differ("LWETCUNION"@, "UCSORGRIGHT"@);
    reveal_strlit("UCSORGTOP");
    lemma_lengths_differ("LWETCUNION"@, "UCSORGTOP"@);
    reveal_strlit("UCSORTHOREF");
    lemma_lengths_differ("LWETCUNION"@, "UCSORTHOREF"@);
    reveal_strlit("UCSORTHOVIEW");
    lemma_lengths_differ("LWETCUNION"@, "UCSORTHOVIEW"@);
    reveal_strlit("ACAD_LAYOUTSELFREF");
    lemma_lengths_differ("LWETCUNION"@, "ACAD_LAYOUTSELFREF"@);
    reveal_strlit("LAYOUTDICT");
    lemma_differ_at("LWETCUNION"@, "LAYOUTDICT"@, 1);
    reveal_strlit("PLOTSETDICT");
    lemma_lengths_differ("LWETCUNION"@, "PLOTSETDICT"@);
    reveal_strlit("PLOTSTYLNAMDICT");
    lemma_lengths_differ("LWETCUNION"@, "PLOTSTYLNAMDICT"@);
    reveal_strlit("PSVPSCALE");
    lemma_lengths_differ("LWETCUNION"@, "PSVPSCALE"@);
    reveal_strlit("STYLESHEET");
    lemma_differ_at("LWETCUNION"@, "STYLESHEET"@, 0);
    reveal_strlit("HYPERLINKBASE");
    lemma_lengths_differ("LWETCUNION"@, "HYPERLINKBASE"@);
    reveal_strlit("ADVMATERIAL");
    lemma_lengths_differ("LWETCUNION"@, "ADVMATERIAL"@);
    reveal_strlit("FBXASSET");
    lemma_lengths_differ("LWETCUNION"@, "FBXASSET"@);
    reveal_strlit("BUMPTILE");
    lemma_lengths_differ("LWETCUNION"@, "BUMPTILE"@);
    reveal_strlit("DIFFUSETILE");
    lemma_lengths_differ("LWETCUNION"@, "DIFFUSETILE"@);
    reveal_strlit("OPACITYTILE");
    lemma_lengths_differ("LWETCUNION"@, "OPACITYTILE"@);
    reveal_strlit("REFLECTIONTILE");
    lemma_lengths_differ("LWETCUNION"@, "REFLECTIONTILE"@);
    reveal_strlit("REFRACTIONTILE");
    lemma_lengths_differ("LWETCUNION"@, "REFRACTIONTILE"@);
    reveal_strlit("SPECULARTILE");
    lemma_lengths_differ("LWETCUNION"@, "SPECULARTILE"@);
    reveal_strlit("BUMP");
    lemma_lengths_differ("LWETCUNION"@, "BUMP"@);
    reveal_strlit("DIFFUSE");
    lemma_lengths_differ("LWETCUNION"@, "DIFFUSE"@);
    reveal_strlit("MATERIALDICT");
    lemma_lengths_differ("LWETCUNION"@, "MATERIALDICT"@);
    reveal_strlit("VIZ XML MATERIAL DEFINITION");
    lemma_lengths_differ("LWETCUNION"@, "VIZ XML MATERIAL DEFINITION"@);
    reveal_strlit("ACAD_MLATT");
    lemma_differ_at("LWETCUNION"@, "ACAD_MLATT"@, 0);
    reveal_strlit("ACAD_VIEWS_VIEW_CUSTOM");
    lemma_lengths_differ("LWETCUNION"@, "ACAD_VIEWS_VIEW_CUSTOM"@);
    reveal_strlit("AECDEPRECATIONHISTORY");
    lemma_lengths_differ("LWETCUNION"@, "AECDEPRECATIONHISTORY"@);
    reveal_strlit("CEPSNID");
    lemma_lengths_differ("LWETCUNION"@, "CEPSNID"@);
    reveal_strlit("CEPSNTYPE");
    lemma_lengths_differ("LWETCUNION"@, "CEPSNTYPE"@);
    reveal_strlit("COLORDICT");
    lemma_lengths_differ("LWETCUNION"@, "COLORDICT"@);
    reveal_strlit("INSUNITS");
    lemma_lengths_differ("LWETCUNION"@, "INSUNITS"@);
    law_kind_ignores_case(s, "LWETCUNION"@);
}

proof fn lemma_key_80(s: Seq<char>)
    requires
        eq_ci(s, "MCS_DOCUMENT_ID"@),
    ensures
        known_kind_of(s) == KnownXRecordKind::Metadata,
{
    reveal_strlit("MCS_DOCUMENT_ID");
    reveal_strlit("ADSK_XREC_LAYER_ALPHA_OVR");
    lemma_lengths_differ("MCS_DOCUMENT_ID"@, "ADSK_XREC_LAYER_ALPHA_OVR"@);
    reveal_strlit("ADSK_XREC_LAYER_COLOR_OVR");
    lemma_lengths_differ("MCS_DOCUMENT_ID"@, "ADSK_XREC_LAYER_COLOR_OVR"@);
    reveal_strlit("ADSK_XREC_LAYER_LINETYPE_OVR");
    lemma_lengths_differ("MCS_DOCUMENT_ID"@, "ADSK_XREC_LAYER_LINETYPE_OVR"@);
    reveal_strlit("ADSK_XREC_LAYER_LINEWT_OVR");
    lemma_lengths_differ("MCS_DOCUMENT_ID"@, "ADSK_XREC_LAYER_LINEWT_OVR"@);
    reveal_strlit("ADSK_XREC_LAYER_RECONCILED");
    lemma_lengths_differ("MCS_DOCUMENT_ID"@, "ADSK_XREC_LAYER_RECONCILED"@);
    reveal_strlit("ACADLAYERSTATEANNOSCALE");
    lemma_lengths_differ("MCS_DOCUMENT_ID"@, "ACADLAYERSTATEANNOSCALE"@);
    reveal_strlit("ASDK_XREC_ANNOTATION_SCALE_INFO");
    lemma_lengths_differ("MCS_DOCUMENT_ID"@, "ASDK_XREC_ANNOTATION_SCALE_INFO"@);
    reveal_strlit("ASDK_XREC_ANNO_SCALE_INFO");
    lemma_lengths_differ("MCS_DOCUMENT_ID"@, "ASDK_XREC_ANNO_SCALE_INFO"@);
    reveal_strlit("ADSK_XREC_VTR_ANNOSCALE_DATA");
    lemma_lengths_differ("MCS_DOCUMENT_ID"@, "ADSK_XREC_VTR_ANNOSCALE_DATA"@);
    reveal_strlit("ADSK_XREC_SUBDVERTEXTEXCOORDS");
    lemma_lengths_differ("MCS_DOCUMENT_ID"@, "ADSK_XREC_SUBDVERTEXTEXCOORDS"@);
    reveal_strlit("ACAD_XREC_ROUNDTRIP");
    lemma_lengths_differ("MCS_DOCUMENT_ID"@, "ACAD_XREC_ROUNDTRIP"@);
    reveal_strlit("ACAD_MTEXT_RT");
    lemma_lengths_differ("MCS_DOCUMENT_ID"@, "ACAD_MTEXT_RT"@);
    reveal_strlit("ACAD_MTEXT_2008_RT");
    lemma_lengths_differ("MCS_DOCUMENT_ID"@, "ACAD_MTEXT_2008_RT"@);
    reveal_strlit("ACDBHEADERROUNDTRIPXREC");
    lemma_lengths_differ("MCS_DOCUMENT_ID"@, "ACDBHEADERROUNDTRIPXREC"@);
    reveal_strlit("AUXHDRRNDTRIPDATA");
    lemma_lengths_differ("MCS_DOCUMENT_ID"@, "AUXHDRRNDTRIPDATA"@);
    reveal_strlit("ACDB_RECOMPOSE_DATA");
    lemma_lengths_differ("MCS_DOCUMENT_ID"@, "ACDB_RECOMPOSE_DATA"@);
    reveal_strlit("ACAD_ENHANCEDBLOCKHISTORY");
    lemma_lengths_differ("MCS_DOCUMENT_ID"@, "ACAD_ENHANCEDBLOCKHISTORY"@);
    reveal_strlit("ASEBLOCKHIERARCHYINDEXRECORD");
    lemma_lengths_differ("MCS_DOCUMENT_ID"@, "ASEBLOCKHIERARCHYINDEXRECORD"@);
    reveal_strlit("ADSK_XREC_LAYOUTTHUMBNAIL");
    lemma_lengths_differ("MCS_DOCUMENT_ID"@, "ADSK_XREC_LAYOUTTHUMBNAIL"@);
    reveal_strlit("ADSK_XREC_VTRANIMATIONINFO");
    lemma_lengths_differ("MCS_DOCUMENT_ID"@, "ADSK_XREC_VTRANIMATIONINFO"@);
    reveal_strlit("ADSK_XREC_VTRTHUMBNAIL");
    lemma_lengths_differ("MCS_DOCUMENT_ID"@, "ADSK_XREC_VTRTHUMBNAIL"@);
    reveal_strlit("ADSK_XREC_VTRVIEWINFO");
    lemma_lengths_differ("MCS_DOCUMENT_ID"@, "ADSK_XREC_VTRVIEWINFO"@);
    reveal_strlit("ADSK_XREC_PHOTOMETRICLIGHTINFO");
    lemma_lengths_differ("MCS_DOCUMENT_ID"@, "ADSK_XREC_PHOTOMETRICLIGHTINFO"@);
    reveal_strlit("LIGHTINGQUALITY");
    lemma_differ_at("MCS_DOCUMENT_ID"@, "LIGHTINGQUALITY"@, 0);
    reveal_strlit("ACAD_LAST_SAVED_VERSION_INFO");
    lemma_lengths_differ("MCS_DOCUMENT_ID"@, "ACAD_LAST_SAVED_VERSION_INFO"@);
    reveal_strlit("ACAD_CIP_PREVIOUS_PRODUCT_INFO");
    lemma_lengths_differ("MCS_DOCUMENT_ID"@, "ACAD_CIP_PREVIOUS_PRODUCT_INFO"@);
    reveal_strlit("DWGPROPS");
    lemma_lengths_differ("MCS_DOCUMENT_ID"@, "DWGPROPS"@);
    reveal_strlit("FINGERPRINTGUID");
    lemma_differ_at("MCS_DOCUMENT_ID"@, "FINGERPRINTGUID"@, 0);
    reveal_strlit("ACADDIM");
    lemma_lengths_differ("MCS_DOCUMENT_ID"@, "ACADDIM"@);
    reveal_strlit("DIMSTYLEDATA");
    lemma_lengths_differ("MCS_DOCUMENT_ID"@, "DIMSTYLEDATA"@);
    reveal_strlit("DIMLTEX1");
    lemma_lengths_differ("MCS_DOCUMENT_ID"@, "DIMLTEX1"@);
    reveal_strlit("DIMLTEX2");
    lemma_lengths_differ("MCS_DOCUMENT_ID"@, "DIMLTEX2"@);
    reveal_strlit("DIMLTYPE");
    lemma_lengths_differ("MCS_DOCUMENT_ID"@, "DIMLTYPE"@);
    reveal_strlit("TSTACKALIGN");
    lemma_lengths_differ("MCS_DOCUMENT_ID"@, "TSTACKALIGN"@);
    reveal_strlit("TSTACKSIZE");
    lemma_lengths_differ("MCS_DOCUMENT_ID"@, "TSTACKSIZE"@);
    reveal_strlit("PUCSBASE");
    lemma_lengths_differ("MCS_DOCUMENT_ID"@, "PUCSBASE"@);
    reveal_strlit("PUCSORGBACK");
    lemma_lengths_differ("MCS_DOCUMENT_ID"@, "PUCSORGBACK"@);
    reveal_strlit("PUCSORGBOTTOM");
    lemma_lengths_differ("MCS_DOCUMENT_ID"@, "PUCSORGBOTTOM"@);
    reveal_strlit("PUCSORGFRONT");
    lemma_lengths_differ("MCS_DOCUMENT_ID"@, "PUCSORGFRONT"@);
    reveal_strlit("PUCSORGLEFT");
    lemma_lengths_differ("MCS_DOCUMENT_ID"@, "PUCSORGLEFT"@);
    reveal_strlit("PUCSORGRIGHT");
    lemma_lengths_differ("MCS_DOCUMENT_ID"@, "PUCSORGRIGHT"@);
    reveal_strlit("PUCSORGTOP");
    lemma_lengths_differ("MCS_DOCUMENT_ID"@, "PUCSORGTOP"@);
    reveal_strlit("PUCSORTHOREF");
    lemma_lengths_differ("MCS_DOCUMENT_ID"@, "PUCSORTHOREF"@);
    reveal_strlit("PUCSORTHOVIEW");
    lemma_lengths_differ("MCS_DOCUMENT_ID"@, "PUCSORTHOVIEW"@);
    reveal_strlit("UCSBASE");
    lemma_lengths_differ("MCS_DOCUMENT_ID"@, "UCSBASE"@);
    reveal_strlit("UCSORGBACK");
    lemma_lengths_differ("MCS_DOCUMENT_ID"@, "UCSORGBACK"@);
    reveal_strlit("UCSORGBOTTOM");
    lemma_lengths_differ("MCS_DOCUMENT_ID"@, "UCSORGBOTTOM"@);
    reveal_strlit("UCSORGFRONT");
    lemma_lengths_differ("MCS_DOCUMENT_ID"@, "UCSORGFRONT"@);
    reveal_strlit("UCSORGLEFT");
    lemma_lengths_differ("MCS_DOCUMENT_ID"@, "UCSORGLEFT"@);
    reveal_strlit("UCSORGRIGHT");
    lemma_lengths_differ("MCS_DOCUMENT_ID"@, "UCSORGRIGHT"@);
    reveal_strlit("UCSORGTOP");
    lemma_lengths_differ("MCS_DOCUMENT_ID"@, "UCSORGTOP"@);
    reveal_strlit("UCSORTHOREF");
    lemma_lengths_differ("MCS_DOCUMENT_ID"@, "UCSORTHOREF"@);
    reveal_strlit("UCSORTHOVIEW");
    lemma_lengths_differ("MCS_DOCUMENT_ID"@, "UCSORTHOVIEW"@);
    reveal_strlit("ACAD_LAYOUTSELFREF");
    lemma_lengths_differ("MCS_DOCUMENT_ID"@, "ACAD_LAYOUTSELFREF"@);
    reveal_strlit("LAYOUTDICT");
    lemma_lengths_differ("MCS_DOCUMENT_ID"@, "LAYOUTDICT"@);
    reveal_strlit("PLOTSETDICT");
    lemma_lengths_differ("MCS_DOCUMENT_ID"@, "PLOTSETDICT"@);
    reveal_strlit("PLOTSTYLNAMDICT");
    lemma_differ_at("MCS_DOCUMENT_ID"@, "PLOTSTYLNAMDICT"@, 0);
    reveal_strlit("PSVPSCALE");
    lemma_lengths_differ("MCS_DOCUMENT_ID"@, "PSVPSCALE"@);
    reveal_strlit("STYLESHEET");
    lemma_lengths_differ("MCS_DOCUMENT_ID"@, "STYLESHEET"@);
    reveal_strlit("HYPERLINKBASE");
    lemma_lengths_differ("MCS_DOCUMENT_ID"@, "HYPERLINKBASE"@);
    reveal_strlit("ADVMATERIAL");
    lemma_lengths_differ("MCS_DOCUMENT_ID"@, "ADVMATERIAL"@);
    reveal_strlit("FBXASSET");
    lemma_lengths_differ("MCS_DOCUMENT_ID"@, "FBXASSET"@);
    reveal_strlit("BUMPTILE");
    lemma_lengths_differ("MCS_DOCUMENT_ID"@, "BUMPTILE"@);
    reveal_strlit("DIFFUSETILE");
    lemma_lengths_differ("MCS_DOCUMENT_ID"@, "DIFFUSETILE"@);
    reveal_strlit("OPACITYTILE");
    lemma_lengths_differ("MCS_DOCUMENT_ID"@, "OPACITYTILE"@);
    reveal_strlit("REFLECTIONTILE");
    lemma_lengths_differ("MCS_DOCUMENT_ID"@, "REFLECTIONTILE"@);
    reveal_strlit("REFRACTIONTILE");
    lemma_lengths_differ("MCS_DOCUMENT_ID"@, "REFRACTIONTILE"@);
    reveal_strlit("SPECULARTILE");
    lemma_lengths_differ("MCS_DOCUMENT_ID"@, "SPECULARTILE"@);
    reveal_strlit("BUMP");
    lemma_lengths_differ("MCS_DOCUMENT_ID"@, "BUMP"@);
    reveal_strlit("DIFFUSE");
    lemma_lengths_differ("MCS_DOCUMENT_ID"@, "DIFFUSE"@);
    reveal_strlit("MATERIALDICT");
    lemma_lengths_differ("MCS_DOCUMENT_ID"@, "MATERIALDICT"@);
    reveal_strlit("VIZ XML MATERIAL DEFINITION");
    lemma_lengths_differ("MCS_DOCUMENT_ID"@, "VIZ XML MATERIAL DEFINITION"@);
    reveal_strlit("ACAD_MLATT");
    lemma_lengths_differ("MCS_DOCUMENT_ID"@, "ACAD_MLATT"@);
    reveal_strlit("ACAD_VIEWS_VIEW_CUSTOM");
    lemma_lengths_differ("MCS_DOCUMENT_ID"@, "ACAD_VIEWS_VIEW_CUSTOM"@);
    reveal_strlit("AECDEPRECATIONHISTORY");
    lemma_lengths_differ("MCS_DOCUMENT_ID"@, "AECDEPRECATIONHISTORY"@);
    reveal_strlit("CEPSNID");
    lemma_lengths_differ("MCS_DOCUMENT_ID"@, "CEPSNID"@);
    reveal_strlit("CEPSNTYPE");
    lemma_lengths_differ("MCS_DOCUMENT_ID"@, "CEPSNTYPE"@);
    reveal_strlit("COLORDICT");
    lemma_lengths_differ("MCS_DOCUMENT_ID"@, "COLORDICT"@);
    reveal_strlit("INSUNITS");
    lemma_lengths_differ("MCS_DOCUMENT_ID"@, "INSUNITS"@);
    reveal_strlit("LWETCUNION");
    lemma_lengths_differ("MCS_DOCUMENT_ID"@, "LWETCUNION"@);
    law_kind_ignores_case(s, "MCS_DOCUMENT_ID"@);
}

proof fn lemma_key_81(s: Seq<char>)
    requires
        eq_ci(s, "MCS_PARAMS_DATA"@),
    ensures
        known_kind_of(s) == KnownXRecordKind::Metadata,
{
    reveal_strlit("MCS_PARAMS_DATA");
    reveal_strlit("ADSK_XREC_LAYER_ALPHA_OVR");
    lemma_lengths_differ("MCS_PARAMS_DATA"@, "ADSK_XREC_LAYER_ALPHA_OVR"@);
    reveal_strlit("ADSK_XREC_LAYER_COLOR_OVR");
    lemma_lengths_differ("MCS_PARAMS_DATA"@, "ADSK_XREC_LAYER_COLOR_OVR"@);
    reveal_strlit("ADSK_XREC_LAYER_LINETYPE_OVR");
    lemma_lengths_differ("MCS_PARAMS_DATA"@, "ADSK_XREC_LAYER_LINETYPE_OVR"@);
    reveal_strlit("ADSK_XREC_LAYER_LINEWT_OVR");
    lemma_lengths_differ("MCS_PARAMS_DATA"@, "ADSK_XREC_LAYER_LINEWT_OVR"@);
    reveal_strlit("ADSK_XREC_LAYER_RECONCILED");
    lemma_lengths_differ("MCS_PARAMS_DATA"@, "ADSK_XREC_LAYER_RECONCILED"@);
    reveal_strlit("ACADLAYERSTATEANNOSCALE");
    lemma_lengths_differ("MCS_PARAMS_DATA"@, "ACADLAYERSTATEANNOSCALE"@);
    reveal_strlit("ASDK_XREC_ANNOTATION_SCALE_INFO");
    lemma_lengths_differ("MCS_PARAMS_DATA"@, "ASDK_XREC_ANNOTATION_SCALE_INFO"@);
    reveal_strlit("ASDK_XREC_ANNO_SCALE_INFO");
    lemma_lengths_differ("MCS_PARAMS_DATA"@, "ASDK_XREC_ANNO_SCALE_INFO"@);
    reveal_strlit("ADSK_XREC_VTR_ANNOSCALE_DATA");
    lemma_lengths_differ("MCS_PARAMS_DATA"@, "ADSK_XREC_VTR_ANNOSCALE_DATA"@);
    reveal_strlit("ADSK_XREC_SUBDVERTEXTEXCOORDS");
    lemma_lengths_differ("MCS_PARAMS_DATA"@, "ADSK_XREC_SUBDVERTEXTEXCOORDS"@);
    reveal_strlit("ACAD_XREC_ROUNDTRIP");
    lemma_lengths_differ("MCS_PARAMS_DATA"@, "ACAD_XREC_ROUNDTRIP"@);
    reveal_strlit("ACAD_MTEXT_RT");
    lemma_lengths_differ("MCS_PARAMS_DATA"@, "ACAD_MTEXT_RT"@);
    reveal_strlit("ACAD_MTEXT_2008_RT");
    lemma_lengths_differ("MCS_PARAMS_DATA"@, "ACAD_MTEXT_2008_RT"@);
    reveal_strlit("ACDBHEADERROUNDTRIPXREC");
    lemma_lengths_differ("MCS_PARAMS_DATA"@, "ACDBHEADERROUNDTRIPXREC"@);
    reveal_strlit("AUXHDRRNDTRIPDATA");
    lemma_lengths_differ("MCS_PARAMS_DATA"@, "AUXHDRRNDTRIPDATA"@);
    reveal_strlit("ACDB_RECOMPOSE_DATA");
    lemma_lengths_differ("MCS_PARAMS_DATA"@, "ACDB_RECOMPOSE_DATA"@);
    reveal_strlit("ACAD_ENHANCEDBLOCKHISTORY");
    lemma_lengths_differ("MCS_PARAMS_DATA"@, "ACAD_ENHANCEDBLOCKHISTORY"@);
    reveal_strlit("ASEBLOCKHIERARCHYINDEXRECORD");
    lemma_lengths_differ("MCS_PARAMS_DATA"@, "ASEBLOCKHIERARCHYINDEXRECORD"@);
    reveal_strlit("ADSK_XREC_LAYOUTTHUMBNAIL");
    lemma_lengths_differ("MCS_PARAMS_DATA"@, "ADSK_XREC_LAYOUTTHUMBNAIL"@);
    reveal_strlit("ADSK_XREC_VTRANIMATIONINFO");
    lemma_lengths_differ("MCS_PARAMS_DATA"@, "ADSK_XREC_VTRANIMATIONINFO"@);
    reveal_strlit("ADSK_XREC_VTRTHUMBNAIL");
    lemma_lengths_differ("MCS_PARAMS_DATA"@, "ADSK_XREC_VTRTHUMBNAIL"@);
    reveal_strlit("ADSK_XREC_VTRVIEWINFO");
    lemma_lengths_differ("MCS_PARAMS_DATA"@, "ADSK_XREC_VTRVIEWINFO"@);
    reveal_strlit("ADSK_XREC_PHOTOMETRICLIGHTINFO");
    lemma_lengths_differ("MCS_PARAMS_DATA"@, "ADSK_XREC_PHOTOMETRICLIGHTINFO"@);
    reveal_strlit("LIGHTINGQUALITY");
    lemma_differ_at("MCS_PARAMS_DATA"@, "LIGHTINGQUALITY"@, 0);
    reveal_strlit("ACAD_LAST_SAVED_VERSION_INFO");
    lemma_lengths_differ("MCS_PARAMS_DATA"@, "ACAD_LAST_SAVED_VERSION_INFO"@);
    reveal_strlit("ACAD_CIP_PREVIOUS_PRODUCT_INFO");
    lemma_lengths_differ("MCS_PARAMS_DATA"@, "ACAD_CIP_PREVIOUS_PRODUCT_INFO"@);
    reveal_strlit("DWGPROPS");
    lemma_lengths_differ("MCS_PARAMS_DATA"@, "DWGPROPS"@);
    reveal_strlit("FINGERPRINTGUID");
    lemma_differ_at("MCS_PARAMS_DATA"@, "FINGERPRINTGUID"@, 0);
    reveal_strlit("ACADDIM");
    lemma_lengths_differ("MCS_PARAMS_DATA"@, "ACADDIM"@);
    reveal_strlit("DIMSTYLEDATA");
    lemma_lengths_differ("MCS_PARAMS_DATA"@, "DIMSTYLEDATA"@);
    reveal_strlit("DIMLTEX1");
    lemma_lengths_differ("MCS_PARAMS_DATA"@, "DIMLTEX1"@);
    reveal_strlit("DIMLTEX2");
    lemma_lengths_differ("MCS_PARAMS_DATA"@, "DIMLTEX2"@);
    reveal_strlit("DIMLTYPE");
    lemma_lengths_differ("MCS_PARAMS_DATA"@, "DIMLTYPE"@);
    reveal_strlit("TSTACKALIGN");
    lemma_lengths_differ("MCS_PARAMS_DATA"@, "TSTACKALIGN"@);
    reveal_strlit("TSTACKSIZE");
    lemma_lengths_differ("MCS_PARAMS_DATA"@, "TSTACKSIZE"@);
    reveal_strlit("PUCSBASE");
    lemma_lengths_differ("MCS_PARAMS_DATA"@, "PUCSBASE"@);
    reveal_strlit("PUCSORGBACK");
    lemma_lengths_differ("MCS_PARAMS_DATA"@, "PUCSORGBACK"@);
    reveal_strlit("PUCSORGBOTTOM");
    lemma_lengths_differ("MCS_PARAMS_DATA"@, "PUCSORGBOTTOM"@);
    reveal_strlit("PUCSORGFRONT");
    lemma_lengths_differ("MCS_PARAMS_DATA"@, "PUCSORGFRONT"@);
    reveal_strlit("PUCSORGLEFT");
    lemma_lengths_differ("MCS_PARAMS_DATA"@, "PUCSORGLEFT"@);
    reveal_strlit("PUCSORGRIGHT");
    lemma_lengths_differ("MCS_PARAMS_DATA"@, "PUCSORGRIGHT"@);
    reveal_strlit("PUCSORGTOP");
    lemma_lengths_differ("MCS_PARAMS_DATA"@, "PUCSORGTOP"@);
    reveal_strlit("PUCSORTHOREF");
    lemma_lengths_differ("MCS_PARAMS_DATA"@, "PUCSORTHOREF"@);
    reveal_strlit("PUCSORTHOVIEW");
    lemma_lengths_differ("MCS_PARAMS_DATA"@, "PUCSORTHOVIEW"@);
    reveal_strlit("UCSBASE");
    lemma_lengths_differ("MCS_PARAMS_DATA"@, "UCSBASE"@);
    reveal_strlit("UCSORGBACK");
    lemma_lengths_differ("MCS_PARAMS_DATA"@, "UCSORGBACK"@);
    reveal_strlit("UCSORGBOTTOM");
    lemma_lengths_differ("MCS_PARAMS_DATA"@, "UCSORGBOTTOM"@);
    reveal_strlit("UCSORGFRONT");
    lemma_lengths_differ("MCS_PARAMS_DATA"@, "UCSORGFRONT"@);
    reveal_strlit("UCSORGLEFT");
    lemma_lengths_differ("MCS_PARAMS_DATA"@, "UCSORGLEFT"@);
    reveal_strlit("UCSORGRIGHT");
    lemma_lengths_differ("MCS_PARAMS_DATA"@, "UCSORGRIGHT"@);
    reveal_strlit("UCSORGTOP");
    lemma_lengths_differ("MCS_PARAMS_DATA"@, "UCSORGTOP"@);
    reveal_strlit("UCSORTHOREF");
    lemma_lengths_differ("MCS_PARAMS_DATA"@, "UCSORTHOREF"@);
    reveal_strlit("UCSORTHOVIEW");
    lemma_lengths_differ("MCS_PARAMS_DATA"@, "UCSORTHOVIEW"@);
    reveal_strlit("ACAD_LAYOUTSELFREF");
    lemma_lengths_differ("MCS_PARAMS_DATA"@, "ACAD_LAYOUTSELFREF"@);
    reveal_strlit("LAYOUTDICT");
    lemma_lengths_differ("MCS_PARAMS_DATA"@, "LAYOUTDICT"@);
    reveal_strlit("PLOTSETDICT");
    lemma_lengths_differ("MCS_PARAMS_DATA"@, "PLOTSETDICT"@);
    reveal_strlit("PLOTSTYLNAMDICT");
    lemma_differ_at("MCS_PARAMS_DATA"@, "PLOTSTYLNAMDICT"@, 0);
    reveal_strlit("PSVPSCALE");
    lemma_lengths_differ("MCS_PARAMS_DATA"@, "PSVPSCALE"@);
    reveal_strlit("STYLESHEET");
    lemma_lengths_differ("MCS_PARAMS_DATA"@, "STYLESHEET"@);
    reveal_strlit("HYPERLINKBASE");
    lemma_lengths_differ("MCS_PARAMS_DATA"@, "HYPERLINKBASE"@);
    reveal_strlit("ADVMATERIAL");
    lemma_lengths_differ("MCS_PARAMS_DATA"@, "ADVMATERIAL"@);
    reveal_strlit("FBXASSET");
    lemma_lengths_differ("MCS_PARAMS_DATA"@, "FBXASSET"@);
    reveal_strlit("BUMPTILE");
    lemma_lengths_differ("MCS_PARAMS_DATA"@, "BUMPTILE"@);
    reveal_strlit("DIFFUSETILE");
    lemma_lengths_differ("MCS_PARAMS_DATA"@, "DIFFUSETILE"@);
    reveal_strlit("OPACITYTILE");
    lemma_lengths_differ("MCS_PARAMS_DATA"@, "OPACITYTILE"@);
    reveal_strlit("REFLECTIONTILE");
    lemma_lengths_differ("MCS_PARAMS_DATA"@, "REFLECTIONTILE"@);
    reveal_strlit("REFRACTIONTILE");
    lemma_lengths_differ("MCS_PARAMS_DATA"@, "REFRACTIONTILE"@);
    reveal_strlit("SPECULARTILE");
    lemma_lengths_differ("MCS_PARAMS_DATA"@, "SPECULARTILE"@);
    reveal_strlit("BUMP");
    lemma_lengths_differ("MCS_PARAMS_DATA"@, "BUMP"@);
    reveal_strlit("DIFFUSE");
    lemma_lengths_differ("MCS_PARAMS_DATA"@, "DIFFUSE"@);
    reveal_strlit("MATERIALDICT");
    lemma_lengths_differ("MCS_PARAMS_DATA"@, "MATERIALDICT"@);
    reveal_strlit("VIZ XML MATERIAL DEFINITION");
    lemma_lengths_differ("MCS_PARAMS_DATA"@, "VIZ XML MATERIAL DEFINITION"@);
    reveal_strlit("ACAD_MLATT");
    lemma_lengths_differ("MCS_PARAMS_DATA"@, "ACAD_MLATT"@);
    reveal_strlit("ACAD_VIEWS_VIEW_CUSTOM");
    lemma_lengths_differ("MCS_PARAMS_DATA"@, "ACAD_VIEWS_VIEW_CUSTOM"@);
    reveal_strlit("AECDEPRECATIONHISTORY");
    lemma_lengths_differ("MCS_PARAMS_DATA"@, "AECDEPRECATIONHISTORY"@);
    reveal_strlit("CEPSNID");
    lemma_lengths_differ("MCS_PARAMS_DATA"@, "CEPSNID"@);
    reveal_strlit("CEPSNTYPE");
    lemma_lengths_differ("MCS_PARAMS_DATA"@, "CEPSNTYPE"@);
    reveal_strlit("COLORDICT");
    lemma_lengths_differ("MCS_PARAMS_DATA"@, "COLORDICT"@);
    reveal_strlit("INSUNITS");
    lemma_lengths_differ("MCS_PARAMS_DATA"@, "INSUNITS"@);
    reveal_strlit("LWETCUNION");
    lemma_lengths_differ("MCS_PARAMS_DATA"@, "LWETCUNION"@);
    reveal_strlit("MCS_DOCUMENT_ID");
    lemma_differ_at("MCS_PARAMS_DATA"@, "MCS_DOCUMENT_ID"@, 4);
    law_kind_ignores_case(s, "MCS_PARAMS_DATA"@);
}

proof fn lemma_key_82(s: Seq<char>)
    requires
        eq_ci(s, "MC_VERSION_DATA"@),
    ensures
        known_kind_of(s) == KnownXRecordKind::Metadata,
{
    reveal_strlit("MC_VERSION_DATA");
    reveal_strlit("ADSK_XREC_LAYER_ALPHA_OVR");
    lemma_lengths_differ("MC_VERSION_DATA"@, "ADSK_XREC_LAYER_ALPHA_OVR"@);
    reveal_strlit("ADSK_XREC_LAYER_COLOR_OVR");
    lemma_lengths_differ("MC_VERSION_DATA"@, "ADSK_XREC_LAYER_COLOR_OVR"@);
    reveal_strlit("ADSK_XREC_LAYER_LINETYPE_OVR");
    lemma_lengths_differ("MC_VERSION_DATA"@, "ADSK_XREC_LAYER_LINETYPE_OVR"@);
    reveal_strlit("ADSK_XREC_LAYER_LINEWT_OVR");
    lemma_lengths_differ("MC_VERSION_DATA"@, "ADSK_XREC_LAYER_LINEWT_OVR"@);
    reveal_strlit("ADSK_XREC_LAYER_RECONCILED");
    lemma_lengths_differ("MC_VERSION_DATA"@, "ADSK_XREC_LAYER_RECONCILED"@);
    reveal_strlit("ACADLAYERSTATEANNOSCALE");
    lemma_lengths_differ("MC_VERSION_DATA"@, "ACADLAYERSTATEANNOSCALE"@);
    reveal_strlit("ASDK_XREC_ANNOTATION_SCALE_INFO");
    lemma_lengths_differ("MC_VERSION_DATA"@, "ASDK_XREC_ANNOTATION_SCALE_INFO"@);
    reveal_strlit("ASDK_XREC_ANNO_SCALE_INFO");
    lemma_lengths_differ("MC_VERSION_DATA"@, "ASDK_XREC_ANNO_SCALE_INFO"@);
    reveal_strlit("ADSK_XREC_VTR_ANNOSCALE_DATA");
    lemma_lengths_differ("MC_VERSION_DATA"@, "ADSK_XREC_VTR_ANNOSCALE_DATA"@);
    reveal_strlit("ADSK_XREC_SUBDVERTEXTEXCOORDS");
    lemma_lengths_differ("MC_VERSION_DATA"@, "ADSK_XREC_SUBDVERTEXTEXCOORDS"@);
    reveal_strlit("ACAD_XREC_ROUNDTRIP");
    lemma_lengths_differ("MC_VERSION_DATA"@, "ACAD_XREC_ROUNDTRIP"@);
    reveal_strlit("ACAD_MTEXT_RT");
    lemma_lengths_differ("MC_VERSION_DATA"@, "ACAD_MTEXT_RT"@);
    reveal_strlit("ACAD_MTEXT_2008_RT");
    lemma_lengths_differ("MC_VERSION_DATA"@, "ACAD_MTEXT_2008_RT"@);
    reveal_strlit("ACDBHEADERROUNDTRIPXREC");
    lemma_lengths_differ("MC_VERSION_DATA"@, "ACDBHEADERROUNDTRIPXREC"@);
    reveal_strlit("AUXHDRRNDTRIPDATA");
    lemma_lengths_differ("MC_VERSION_DATA"@, "AUXHDRRNDTRIPDATA"@);
    reveal_strlit("ACDB_RECOMPOSE_DATA");
    lemma_lengths_differ("MC_VERSION_DATA"@, "ACDB_RECOMPOSE_DATA"@);
    reveal_strlit("ACAD_ENHANCEDBLOCKHISTORY");
    lemma_lengths_differ("MC_VERSION_DATA"@, "ACAD_ENHANCEDBLOCKHISTORY"@);
    reveal_strlit("ASEBLOCKHIERARCHYINDEXRECORD");
    lemma_lengths_differ("MC_VERSION_DATA"@, "ASEBLOCKHIERARCHYINDEXRECORD"@);
    reveal_strlit("ADSK_XREC_LAYOUTTHUMBNAIL");
    lemma_lengths_differ("MC_VERSION_DATA"@, "ADSK_XREC_LAYOUTTHUMBNAIL"@);
    reveal_strlit("ADSK_XREC_VTRANIMATIONINFO");
    lemma_lengths_differ("MC_VERSION_DATA"@, "ADSK_XREC_VTRANIMATIONINFO"@);
    reveal_strlit("ADSK_XREC_VTRTHUMBNAIL");
    lemma_lengths_differ("MC_VERSION_DATA"@, "ADSK_XREC_VTRTHUMBNAIL"@);
    reveal_strlit("ADSK_XREC_VTRVIEWINFO");
    lemma_lengths_differ("MC_VERSION_DATA"@, "ADSK_XREC_VTRVIEWINFO"@);
    reveal_strlit("ADSK_XREC_PHOTOMETRICLIGHTINFO");
    lemma_lengths_differ("MC_VERSION_DATA"@, "ADSK_XREC_PHOTOMETRICLIGHTINFO"@);
    reveal_strlit("LIGHTINGQUALITY");
    lemma_differ_at("MC_VERSION_DATA"@, "LIGHTINGQUALITY"@, 0);
    reveal_strlit("ACAD_LAST_SAVED_VERSION_INFO");
    lemma_lengths_differ("MC_VERSION_DATA"@, "ACAD_LAST_SAVED_VERSION_INFO"@);
    reveal_strlit("ACAD_CIP_PREVIOUS_PRODUCT_INFO");
    lemma_lengths_differ("MC_VERSION_DATA"@, "ACAD_CIP_PREVIOUS_PRODUCT_INFO"@);
    reveal_strlit("DWGPROPS");
    lemma_lengths_differ("MC_VERSION_DATA"@, "DWGPROPS"@);
    reveal_strlit("FINGERPRINTGUID");
    lemma_differ_at("MC_VERSION_DATA"@, "FINGERPRINTGUID"@, 0);
    reveal_strlit("ACADDIM");
    lemma_lengths_differ("MC_VERSION_DATA"@, "ACADDIM"@);
    reveal_strlit("DIMSTYLEDATA");
    lemma_lengths_differ("MC_VERSION_DATA"@, "DIMSTYLEDATA"@);
    reveal_strlit("DIMLTEX1");
    lemma_lengths_differ("MC_VERSION_DATA"@, "DIMLTEX1"@);
    reveal_strlit("DIMLTEX2");
    lemma_lengths_differ("MC_VERSION_DATA"@, "DIMLTEX2"@);
    reveal_strlit("DIMLTYPE");
    lemma_lengths_differ("MC_VERSION_DATA"@, "DIMLTYPE"@);
    reveal_strlit("TSTACKALIGN");
    lemma_lengths_differ("MC_VERSION_DATA"@, "TSTACKALIGN"@);
    reveal_strlit("TSTACKSIZE");
    lemma_lengths_differ("MC_VERSION_DATA"@, "TSTACKSIZE"@);
    reveal_strlit("PUCSBASE");
    lemma_lengths_differ("MC_VERSION_DATA"@, "PUCSBASE"@);
    reveal_strlit("PUCSORGBACK");
    lemma_lengths_differ("MC_VERSION_DATA"@, "PUCSORGBACK"@);
    reveal_strlit("PUCSORGBOTTOM");
    lemma_lengths_differ("MC_VERSION_DATA"@, "PUCSORGBOTTOM"@);
    reveal_strlit("PUCSORGFRONT");
    lemma_lengths_differ("MC_VERSION_DATA"@, "PUCSORGFRONT"@);
    reveal_strlit("PUCSORGLEFT");
    lemma_lengths_differ("MC_VERSION_DATA"@, "PUCSORGLEFT"@);
    reveal_strlit("PUCSORGRIGHT");
    lemma_lengths_differ("MC_VERSION_DATA"@, "PUCSORGRIGHT"@);
    reveal_strlit("PUCSORGTOP");
    lemma_lengths_differ("MC_VERSION_DATA"@, "PUCSORGTOP"@);
    reveal_strlit("PUCSORTHOREF");
    lemma_lengths_differ("MC_VERSION_DATA"@, "PUCSORTHOREF"@);
    reveal_strlit("PUCSORTHOVIEW");
    lemma_lengths_differ("MC_VERSION_DATA"@, "PUCSORTHOVIEW"@);
    reveal_strlit("UCSBASE");
    lemma_lengths_differ("MC_VERSION_DATA"@, "UCSBASE"@);
    reveal_strlit("UCSORGBACK");
    lemma_lengths_differ("MC_VERSION_DATA"@, "UCSORGBACK"@);
    reveal_strlit("UCSORGBOTTOM");
    lemma_lengths_differ("MC_VERSION_DATA"@, "UCSORGBOTTOM"@);
    reveal_strlit("UCSORGFRONT");
    lemma_lengths_differ("MC_VERSION_DATA"@, "UCSORGFRONT"@);
    reveal_strlit("UCSORGLEFT");
    lemma_lengths_differ("MC_VERSION_DATA"@, "UCSORGLEFT"@);
    reveal_strlit("UCSORGRIGHT");
    lemma_lengths_differ("MC_VERSION_DATA"@, "UCSORGRIGHT"@);
    reveal_strlit("UCSORGTOP");
    lemma_lengths_differ("MC_VERSION_DATA"@, "UCSORGTOP"@);
    reveal_strlit("UCSORTHOREF");
    lemma_lengths_differ("MC_VERSION_DATA"@, "UCSORTHOREF"@);
    reveal_strlit("UCSORTHOVIEW");
    lemma_lengths_differ("MC_VERSION_DATA"@, "UCSORTHOVIEW"@);
    reveal_strlit("ACAD_LAYOUTSELFREF");
    lemma_lengths_differ("MC_VERSION_DATA"@, "ACAD_LAYOUTSELFREF"@);
    reveal_strlit("LAYOUTDICT");
    lemma_lengths_differ("MC_VERSION_DATA"@, "LAYOUTDICT"@);
    reveal_strlit("PLOTSETDICT");
    lemma_lengths_differ("MC_VERSION_DATA"@, "PLOTSETDICT"@);
    reveal_strlit("PLOTSTYLNAMDICT");
    lemma_differ_at("MC_VERSION_DATA"@, "PLOTSTYLNAMDICT"@, 0);
    reveal_strlit("PSVPSCALE");
    lemma_lengths_differ("MC_VERSION_DATA"@, "PSVPSCALE"@);
    reveal_strlit("STYLESHEET");
    lemma_lengths_differ("MC_VERSION_DATA"@, "STYLESHEET"@);
    reveal_strlit("HYPERLINKBASE");
    lemma_lengths_differ("MC_VERSION_DATA"@, "HYPERLINKBASE"@);
    reveal_strlit("ADVMATERIAL");
    lemma_lengths_differ("MC_VERSION_DATA"@, "ADVMATERIAL"@);
    reveal_strlit("FBXASSET");
    lemma_lengths_differ("MC_VERSION_DATA"@, "FBXASSET"@);
    reveal_strlit("BUMPTILE");
    lemma_lengths_differ("MC_VERSION_DATA"@, "BUMPTILE"@);
    reveal_strlit("DIFFUSETILE");
    lemma_lengths_differ("MC_VERSION_DATA"@, "DIFFUSETILE"@);
    reveal_strlit("OPACITYTILE");
    lemma_lengths_differ("MC_VERSION_DATA"@, "OPACITYTILE"@);
    reveal_strlit("REFLECTIONTILE");
    lemma_lengths_differ("MC_VERSION_DATA"@, "REFLECTIONTILE"@);
    reveal_strlit("REFRACTIONTILE");
    lemma_lengths_differ("MC_VERSION_DATA"@, "REFRACTIONTILE"@);
    reveal_strlit("SPECULARTILE");
    lemma_lengths_differ("MC_VERSION_DATA"@, "SPECULARTILE"@);
    reveal_strlit("BUMP");
    lemma_lengths_differ("MC_VERSION_DATA"@, "BUMP"@);
    reveal_strlit("DIFFUSE");
    lemma_lengths_differ("MC_VERSION_DATA"@, "DIFFUSE"@);
    reveal_strlit("MATERIALDICT");
    lemma_lengths_differ("MC_VERSION_DATA"@, "MATERIALDICT"@);
    reveal_strlit("VIZ XML MATERIAL DEFINITION");
    lemma_lengths_differ("MC_VERSION_DATA"@, "VIZ XML MATERIAL DEFINITION"@);
    reveal_strlit("ACAD_MLATT");
    lemma_lengths_differ("MC_VERSION_DATA"@, "ACAD_MLATT"@);
    reveal_strlit("ACAD_VIEWS_VIEW_CUSTOM");
    lemma_lengths_differ("MC_VERSION_DATA"@, "ACAD_VIEWS_VIEW_CUSTOM"@);
    reveal_strlit("AECDEPRECATIONHISTORY");
    lemma_lengths_differ("MC_VERSION_DATA"@, "AECDEPRECATIONHISTORY"@);
    reveal_strlit("CEPSNID");
    lemma_lengths_differ("MC_VERSION_DATA"@, "CEPSNID"@);
    reveal_strlit("CEPSNTYPE");
    lemma_lengths_differ("MC_VERSION_DATA"@, "CEPSNTYPE"@);
    reveal_strlit("COLORDICT");
    lemma_lengths_differ("MC_VERSION_DATA"@, "COLORDICT"@);
    reveal_strlit("INSUNITS");
    lemma_lengths_differ("MC_VERSION_DATA"@, "INSUNITS"@);
    reveal_strlit("LWETCUNION");
    lemma_lengths_differ("MC_VERSION_DATA"@, "LWETCUNION"@);
    reveal_strlit("MCS_DOCUMENT_ID");
    lemma_differ_at("MC_VERSION_DATA"@, "MCS_DOCUMENT_ID"@, 2);
    reveal_strlit("MCS_PARAMS_DATA");
    lemma_differ_at("MC_VERSION_DATA"@, "MCS_PARAMS_DATA"@, 2);
    law_kind_ignores_case(s, "MC_VERSION_DATA"@);
}

proof fn lemma_key_83(s: Seq<char>)
    requires
        eq_ci(s, "VERSIONGUID"@),
    ensures
        known_kind_of(s) == KnownXRecordKind::Metadata,
{
    reveal_strlit("VERSIONGUID");
    reveal_strlit("ADSK_XREC_LAYER_ALPHA_OVR");
    lemma_lengths_differ("VERSIONGUID"@, "ADSK_XREC_LAYER_ALPHA_OVR"@);
    reveal_strlit("ADSK_XREC_LAYER_COLOR_OVR");
    lemma_lengths_differ("VERSIONGUID"@, "ADSK_XREC_LAYER_COLOR_OVR"@);
    reveal_strlit("ADSK_XREC_LAYER_LINETYPE_OVR");
    lemma_lengths_differ("VERSIONGUID"@, "ADSK_XREC_LAYER_LINETYPE_OVR"@);
    reveal_strlit("ADSK_XREC_LAYER_LINEWT_OVR");
    lemma_lengths_differ("VERSIONGUID"@, "ADSK_XREC_LAYER_LINEWT_OVR"@);
    reveal_strlit("ADSK_XREC_LAYER_RECONCILED");
    lemma_lengths_differ("VERSIONGUID"@, "ADSK_XREC_LAYER_RECONCILED"@);
    reveal_strlit("ACADLAYERSTATEANNOSCALE");
    lemma_lengths_differ("VERSIONGUID"@, "ACADLAYERSTATEANNOSCALE"@);
    reveal_strlit("ASDK_XREC_ANNOTATION_SCALE_INFO");
    lemma_lengths_differ("VERSIONGUID"@, "ASDK_XREC_ANNOTATION_SCALE_INFO"@);
    reveal_strlit("ASDK_XREC_ANNO_SCALE_INFO");
    lemma_lengths_differ("VERSIONGUID"@, "ASDK_XREC_ANNO_SCALE_INFO"@);
    reveal_strlit("ADSK_XREC_VTR_ANNOSCALE_DATA");
    lemma_lengths_differ("VERSIONGUID"@, "ADSK_XREC_VTR_ANNOSCALE_DATA"@);
    reveal_strlit("ADSK_XREC_SUBDVERTEXTEXCOORDS");
    lemma_lengths_differ("VERSIONGUID"@, "ADSK_XREC_SUBDVERTEXTEXCOORDS"@);
    reveal_strlit("ACAD_XREC_ROUNDTRIP");
    lemma_lengths_differ("VERSIONGUID"@, "ACAD_XREC_ROUNDTRIP"@);
    reveal_strlit("ACAD_MTEXT_RT");
    lemma_lengths_differ("VERSIONGUID"@, "ACAD_MTEXT_RT"@);
    reveal_strlit("ACAD_MTEXT_2008_RT");
    lemma_lengths_differ("VERSIONGUID"@, "ACAD_MTEXT_2008_RT"@);
    reveal_strlit("ACDBHEADERROUNDTRIPXREC");
    lemma_lengths_differ("VERSIONGUID"@, "ACDBHEADERROUNDTRIPXREC"@);
    reveal_strlit("AUXHDRRNDTRIPDATA");
    lemma_lengths_differ("VERSIONGUID"@, "AUXHDRRNDTRIPDATA"@);
    reveal_strlit("ACDB_RECOMPOSE_DATA");
    lemma_lengths_differ("VERSIONGUID"@, "ACDB_RECOMPOSE_DATA"@);
    reveal_strlit("ACAD_ENHANCEDBLOCKHISTORY");
    lemma_lengths_differ("VERSIONGUID"@, "ACAD_ENHANCEDBLOCKHISTORY"@);
    reveal_strlit("ASEBLOCKHIERARCHYINDEXRECORD");
    lemma_lengths_differ("VERSIONGUID"@, "ASEBLOCKHIERARCHYINDEXRECORD"@);
    reveal_strlit("ADSK_XREC_LAYOUTTHUMBNAIL");
    lemma_lengths_differ("VERSIONGUID"@, "ADSK_XREC_LAYOUTTHUMBNAIL"@);
    reveal_strlit("ADSK_XREC_VTRANIMATIONINFO");
    lemma_lengths_differ("VERSIONGUID"@, "ADSK_XREC_VTRANIMATIONINFO"@);
    reveal_strlit("ADSK_XREC_VTRTHUMBNAIL");
    lemma_lengths_differ("VERSIONGUID"@, "ADSK_XREC_VTRTHUMBNAIL"@);
    reveal_strlit("ADSK_XREC_VTRVIEWINFO");
    lemma_lengths_differ("VERSIONGUID"@, "ADSK_XREC_VTRVIEWINFO"@);
    reveal_strlit("ADSK_XREC_PHOTOMETRICLIGHTINFO");
    lemma_lengths_differ("VERSIONGUID"@, "ADSK_XREC_PHOTOMETRICLIGHTINFO"@);
    reveal_strlit("LIGHTINGQUALITY");
    lemma_lengths_differ("VERSIONGUID"@, "LIGHTINGQUALITY"@);
    reveal_strlit("ACAD_LAST_SAVED_VERSION_INFO");
    lemma_lengths_differ("VERSIONGUID"@, "ACAD_LAST_SAVED_VERSION_INFO"@);
    reveal_strlit("ACAD_CIP_PREVIOUS_PRODUCT_INFO");
    lemma_lengths_differ("VERSIONGUID"@, "ACAD_CIP_PREVIOUS_PRODUCT_INFO"@);
    reveal_strlit("DWGPROPS");
    lemma_lengths_differ("VERSIONGUID"@, "DWGPROPS"@);
    reveal_strlit("FINGERPRINTGUID");
    lemma_lengths_differ("VERSIONGUID"@, "FINGERPRINTGUID"@);
    reveal_strlit("ACADDIM");
    lemma_lengths_differ("VERSIONGUID"@, "ACADDIM"@);
    reveal_strlit("DIMSTYLEDATA");
    lemma_lengths_differ("VERSIONGUID"@, "DIMSTYLEDATA"@);
    reveal_strlit("DIMLTEX1");
    lemma_lengths_differ("VERSIONGUID"@, "DIMLTEX1"@);
    reveal_strlit("DIMLTEX2");
    lemma_lengths_differ("VERSIONGUID"@, "DIMLTEX2"@);
    reveal_strlit("DIMLTYPE");
    lemma_lengths_differ("VERSIONGUID"@, "DIMLTYPE"@);
    reveal_strlit("TSTACKALIGN");
    lemma_differ_at("VERSIONGUID"@, "TSTACKALIGN"@, 0);
    reveal_strlit("TSTACKSIZE");
    lemma_lengths_differ("VERSIONGUID"@, "TSTACKSIZE"@);
    reveal_strlit("PUCSBASE");
    lemma_lengths_differ("VERSIONGUID"@, "PUCSBASE"@);
    reveal_strlit("PUCSORGBACK");
    lemma_differ_at("VERSIONGUID"@, "PUCSORGBACK"@, 0);
    reveal_strlit("PUCSORGBOTTOM");
    lemma_lengths_differ("VERSIONGUID"@, "PUCSORGBOTTOM"@);
    reveal_strlit("PUCSORGFRONT");
    lemma_lengths_differ("VERSIONGUID"@, "PUCSORGFRONT"@);
    reveal_strlit("PUCSORGLEFT");
    lemma_differ_at("VERSIONGUID"@, "PUCSORGLEFT"@, 0);
    reveal_strlit("PUCSORGRIGHT");
    lemma_lengths_differ("VERSIONGUID"@, "PUCSORGRIGHT"@);
    reveal_strlit("PUCSORGTOP");
    lemma_lengths_differ("VERSIONGUID"@, "PUCSORGTOP"@);
    reveal_strlit("PUCSORTHOREF");
    lemma_lengths_differ("VERSIONGUID"@, "PUCSORTHOREF"@);
    reveal_strlit("PUCSORTHOVIEW");
    lemma_lengths_differ("VERSIONGUID"@, "PUCSORTHOVIEW"@);
    reveal_strlit("UCSBASE");
    lemma_lengths_differ("VERSIONGUID"@, "UCSBASE"@);
    reveal_strlit("UCSORGBACK");
    lemma_lengths_differ("VERSIONGUID"@, "UCSORGBACK"@);
    reveal_strlit("UCSORGBOTTOM");
    lemma_lengths_differ("VERSIONGUID"@, "UCSORGBOTTOM"@);
    reveal_strlit("UCSORGFRONT");
    lemma_differ_at("VERSIONGUID"@, "UCSORGFRONT"@, 0);
    reveal_strlit("UCSORGLEFT");
    lemma_lengths_differ("VERSIONGUID"@, "UCSORGLEFT"@);
    reveal_strlit("UCSORGRIGHT");
    lemma_differ_at("VERSIONGUID"@, "UCSORGRIGHT"@, 0);
    reveal_strlit("UCSORGTOP");
    lemma_lengths_differ("VERSIONGUID"@, "UCSORGTOP"@);
    reveal_strlit("UCSORTHOREF");
    lemma_differ_at("VERSIONGUID"@, "UCSORTHOREF"@, 0);
    reveal_strlit("UCSORTHOVIEW");
    lemma_lengths_differ("VERSIONGUID"@, "UCSORTHOVIEW"@);
    reveal_strlit("ACAD_LAYOUTSELFREF");
    lemma_lengths_differ("VERSIONGUID"@, "ACAD_LAYOUTSELFREF"@);
    reveal_strlit("LAYOUTDICT");
    lemma_lengths_differ("VERSIONGUID"@, "LAYOUTDICT"@);
    reveal_strlit("PLOTSETDICT");
    lemma_differ_at("VERSIONGUID"@, "PLOTSETDICT"@, 0);
    reveal_strlit("PLOTSTYLNAMDICT");
    lemma_lengths_differ("VERSIONGUID"@, "PLOTSTYLNAMDICT"@);
    reveal_strlit("PSVPSCALE");
    lemma_lengths_differ("VERSIONGUID"@, "PSVPSCALE"@);
    reveal_strlit("STYLESHEET");
    lemma_lengths_differ("VERSIONGUID"@, "STYLESHEET"@);
    reveal_strlit("HYPERLINKBASE");
    lemma_lengths_differ("VERSIONGUID"@, "HYPERLINKBASE"@);
    reveal_strlit("ADVMATERIAL");
    lemma_differ_at("VERSIONGUID"@, "ADVMATERIAL"@, 0);
    reveal_strlit("FBXASSET");
    lemma_lengths_differ("VERSIONGUID"@, "FBXASSET"@);
    reveal_strlit("BUMPTILE");
    lemma_lengths_differ("VERSIONGUID"@, "BUMPTILE"@);
    reveal_strlit("DIFFUSETILE");
    lemma_differ_at("VERSIONGUID"@, "DIFFUSETILE"@, 0);
    reveal_strlit("OPACITYTILE");
    lemma_differ_at("VERSIONGUID"@, "OPACITYTILE"@, 0);
    reveal_strlit("REFLECTIONTILE");
    lemma_lengths_differ("VERSIONGUID"@, "REFLECTIONTILE"@);
    reveal_strlit("REFRACTIONTILE");
    lemma_lengths_differ("VERSIONGUID"@, "REFRACTIONTILE"@);
    reveal_strlit("SPECULARTILE");
    lemma_lengths_differ("VERSIONGUID"@, "SPECULARTILE"@);
    reveal_strlit("BUMP");
    lemma_lengths_differ("VERSIONGUID"@, "BUMP"@);
    reveal_strlit("DIFFUSE");
    lemma_lengths_differ("VERSIONGUID"@, "DIFFUSE"@);
    reveal_strlit("MATERIALDICT");
    lemma_lengths_differ("VERSIONGUID"@, "MATERIALDICT"@);
    reveal_strlit("VIZ XML MATERIAL DEFINITION");
    lemma_lengths_differ("VERSIONGUID"@, "VIZ XML MATERIAL DEFINITION"@);
    reveal_strlit("ACAD_MLATT");
    lemma_lengths_differ("VERSIONGUID"@, "ACAD_MLATT"@);
    reveal_strlit("ACAD_VIEWS_VIEW_CUSTOM");
    lemma_lengths_differ("VERSIONGUID"@, "ACAD_VIEWS_VIEW_CUSTOM"@);
    reveal_strlit("AECDEPRECATIONHISTORY");
    lemma_lengths_differ("VERSIONGUID"@, "AECDEPRECATIONHISTORY"@);
    reveal_strlit("CEPSNID");
    lemma_lengths_differ("VERSIONGUID"@, "CEPSNID"@);
    reveal_strlit("CEPSNTYPE");
    lemma_lengths_differ("VERSIONGUID"@, "CEPSNTYPE"@);
    reveal_strlit("COLORDICT");
    lemma_lengths_differ("VERSIONGUID"@, "COLORDICT"@);
    reveal_strlit("INSUNITS");
    lemma_lengths_differ("VERSIONGUID"@, "INSUNITS"@);
    reveal_strlit("LWETCUNION");
    lemma_lengths_differ("VERSIONGUID"@, "LWETCUNION"@);
    reveal_strlit("MCS_DOCUMENT_ID");
    lemma_lengths_differ("VERSIONGUID"@, "MCS_DOCUMENT_ID"@);
    reveal_strlit("MCS_PARAMS_DATA");
    lemma_lengths_differ("VERSIONGUID"@, "MCS_PARAMS_DATA"@);
    reveal_strlit("MC_VERSION_DATA");
    lemma_lengths_differ("VERSIONGUID"@, "MC_VERSION_DATA"@);
    law_kind_ignores_case(s, "VERSIONGUID"@);
}

/// The known keys and the schema each names, ASCII case ignored: a name that
/// matches one of these keys is classified as the kind beside it.
pub proof fn law_known_key_table(s: Seq<char>)
    ensures
        eq_ci(s, "ADSK_XREC_LAYER_ALPHA_OVR"@) ==> known_kind_of(s) == KnownXRecordKind::LayerViewportAlphaOverride,
        eq_ci(s, "ADSK_XREC_LAYER_COLOR_OVR"@) ==> known_kind_of(s) == KnownXRecordKind::LayerViewportColorOverride,
        eq_ci(s, "ADSK_XREC_LAYER_LINETYPE_OVR"@) ==> known_kind_of(s) == KnownXRecordKind::LayerViewportLinetypeOverride,
        eq_ci(s, "ADSK_XREC_LAYER_LINEWT_OVR"@) ==> known_kind_of(s) == KnownXRecordKind::LayerViewportLineweightOverride,
        eq_ci(s, "ADSK_XREC_LAYER_RECONCILED"@) ==> known_kind_of(s) == KnownXRecordKind::LayerReconciled,
        eq_ci(s, "ACADLAYERSTATEANNOSCALE"@) ==> known_kind_of(s) == KnownXRecordKind::LayerStateAnnotationScale,
        eq_ci(s, "ASDK_XREC_ANNOTATION_SCALE_INFO"@) ==> known_kind_of(s) == KnownXRecordKind::AnnotationScale,
        eq_ci(s, "ASDK_XREC_ANNO_SCALE_INFO"@) ==> known_kind_of(s) == KnownXRecordKind::AnnotationScale,
        eq_ci(s, "ADSK_XREC_VTR_ANNOSCALE_DATA"@) ==> known_kind_of(s) == KnownXRecordKind::AnnotationScale,
        eq_ci(s, "ADSK_XREC_SUBDVERTEXTEXCOORDS"@) ==> known_kind_of(s) == KnownXRecordKind::MeshTextureCoordinates,
        eq_ci(s, "ACAD_XREC_ROUNDTRIP"@) ==> known_kind_of(s) == KnownXRecordKind::XrecordRoundTrip,
        eq_ci(s, "ACAD_MTEXT_RT"@) ==> known_kind_of(s) == KnownXRecordKind::MTextRoundTrip,
        eq_ci(s, "ACAD_MTEXT_2008_RT"@) ==> known_kind_of(s) == KnownXRecordKind::MTextRoundTrip,
        eq_ci(s, "ACDBHEADERROUNDTRIPXREC"@) ==> known_kind_of(s) == KnownXRecordKind::HeaderRoundTrip,
        eq_ci(s, "AUXHDRRNDTRIPDATA"@) ==> known_kind_of(s) == KnownXRecordKind::HeaderRoundTrip,
        eq_ci(s, "ACDB_RECOMPOSE_DATA"@) ==> known_kind_of(s) == KnownXRecordKind::RecomposeData,
        eq_ci(s, "ACAD_ENHANCEDBLOCKHISTORY"@) ==> known_kind_of(s) == KnownXRecordKind::DynamicBlockHistory,
        eq_ci(s, "ASEBLOCKHIERARCHYINDEXRECORD"@) ==> known_kind_of(s) == KnownXRecordKind::DynamicBlockHistory,
        eq_ci(s, "ADSK_XREC_LAYOUTTHUMBNAIL"@) ==> known_kind_of(s) == KnownXRecordKind::LayoutThumbnail,
        eq_ci(s, "ADSK_XREC_VTRANIMATIONINFO"@) ==> known_kind_of(s) == KnownXRecordKind::ViewTransition,
        eq_ci(s, "ADSK_XREC_VTRTHUMBNAIL"@) ==> known_kind_of(s) == KnownXRecordKind::ViewTransition,
        eq_ci(s, "ADSK_XREC_VTRVIEWINFO"@) ==> known_kind_of(s) == KnownXRecordKind::ViewTransition,
        eq_ci(s, "ADSK_XREC_PHOTOMETRICLIGHTINFO"@) ==> known_kind_of(s) == KnownXRecordKind::PhotometricLight,
        eq_ci(s, "LIGHTINGQUALITY"@) ==> known_kind_of(s) == KnownXRecordKind::PhotometricLight,
        eq_ci(s, "ACAD_LAST_SAVED_VERSION_INFO"@) ==> known_kind_of(s) == KnownXRecordKind::LastSavedVersion,
        eq_ci(s, "ACAD_CIP_PREVIOUS_PRODUCT_INFO"@) ==> known_kind_of(s) == KnownXRecordKind::PreviousProductInfo,
        eq_ci(s, "DWGPROPS"@) ==> known_kind_of(s) == KnownXRecordKind::DrawingProperties,
        eq_ci(s, "FINGERPRINTGUID"@) ==> known_kind_of(s) == KnownXRecordKind::FingerprintGuid,
        eq_ci(s, "ACADDIM"@) ==> known_kind_of(s) == KnownXRecordKind::DimensionStyleData,
        eq_ci(s, "DIMSTYLEDATA"@) ==> known_kind_of(s) == KnownXRecordKind::DimensionStyleData,
        eq_ci(s, "DIMLTEX1"@) ==> known_kind_of(s) == KnownXRecordKind::DimensionStyleData,
        eq_ci(s, "DIMLTEX2"@) ==> known_kind_of(s) == KnownXRecordKind::DimensionStyleData,
        eq_ci(s, "DIMLTYPE"@) ==> known_kind_of(s) == KnownXRecordKind::DimensionStyleData,
        eq_ci(s, "TSTACKALIGN"@) ==> known_kind_of(s) == KnownXRecordKind::DimensionStyleData,
        eq_ci(s, "TSTACKSIZE"@) ==> known_kind_of(s) == KnownXRecordKind::DimensionStyleData,
        eq_ci(s, "PUCSBASE"@) ==> known_kind_of(s) == KnownXRecordKind::UcsData,
        eq_ci(s, "PUCSORGBACK"@) ==> known_kind_of(s) == KnownXRecordKind::UcsData,
        eq_ci(s, "PUCSORGBOTTOM"@) ==> known_kind_of(s) == KnownXRecordKind::UcsData,
        eq_ci(s, "PUCSORGFRONT"@) ==> known_kind_of(s) == KnownXRecordKind::UcsData,
        eq_ci(s, "PUCSORGLEFT"@) ==> known_kind_of(s) == KnownXRecordKind::UcsData,
        eq_ci(s, "PUCSORGRIGHT"@) ==> known_kind_of(s) == KnownXRecordKind::UcsData,
        eq_ci(s, "PUCSORGTOP"@) ==> known_kind_of(s) == KnownXRecordKind::UcsData,
        eq_ci(s, "PUCSORTHOREF"@) ==> known_kind_of(s) == KnownXRecordKind::UcsData,
        eq_ci(s, "PUCSORTHOVIEW"@) ==> known_kind_of(s) == KnownXRecordKind::UcsData,
        eq_ci(s, "UCSBASE"@) ==> known_kind_of(s) == KnownXRecordKind::UcsData,
        eq_ci(s, "UCSORGBACK"@) ==> known_kind_of(s) == KnownXRecordKind::UcsData,
        eq_ci(s, "UCSORGBOTTOM"@) ==> known_kind_of(s) == KnownXRecordKind::UcsData,
        eq_ci(s, "UCSORGFRONT"@) ==> known_kind_of(s) == KnownXRecordKind::UcsData,
        eq_ci(s, "UCSORGLEFT"@) ==> known_kind_of(s) == KnownXRecordKind::UcsData,
        eq_ci(s, "UCSORGRIGHT"@) ==> known_kind_of(s) == KnownXRecordKind::UcsData,
        eq_ci(s, "UCSORGTOP"@) ==> known_kind_of(s) == KnownXRecordKind::UcsData,
        eq_ci(s, "UCSORTHOREF"@) ==> known_kind_of(s) == KnownXRecordKind::UcsData,
        eq_ci(s, "UCSORTHOVIEW"@) ==> known_kind_of(s) == KnownXRecordKind::UcsData,
        eq_ci(s, "ACAD_LAYOUTSELFREF"@) ==> known_kind_of(s) == KnownXRecordKind::PlotData,
        eq_ci(s, "LAYOUTDICT"@) ==> known_kind_of(s) == KnownXRecordKind::PlotData,
        eq_ci(s, "PLOTSETDICT"@) ==> known_kind_of(s) == KnownXRecordKind::PlotData,
        eq_ci(s, "PLOTSTYLNAMDICT"@) ==> known_kind_of(s) == KnownXRecordKind::PlotData,
        eq_ci(s, "PSVPSCALE"@) ==> known_kind_of(s) == KnownXRecordKind::PlotData,
        eq_ci(s, "STYLESHEET"@) ==> known_kind_of(s) == KnownXRecordKind::PlotData,
        eq_ci(s, "HYPERLINKBASE"@) ==> known_kind_of(s) == KnownXRecordKind::Hyperlink,
        eq_ci(s, "ADVMATERIAL"@) ==> known_kind_of(s) == KnownXRecordKind::AdvancedMaterial,
        eq_ci(s, "FBXASSET"@) ==> known_kind_of(s) == KnownXRecordKind::MaterialAsset,
        eq_ci(s, "BUMPTILE"@) ==> known_kind_of(s) == KnownXRecordKind::MaterialAsset,
        eq_ci(s, "DIFFUSETILE"@) ==> known_kind_of(s) == KnownXRecordKind::MaterialAsset,
        eq_ci(s, "OPACITYTILE"@) ==> known_kind_of(s) == KnownXRecordKind::MaterialAsset,
        eq_ci(s, "REFLECTIONTILE"@) ==> known_kind_of(s) == KnownXRecordKind::MaterialAsset,
        eq_ci(s, "REFRACTIONTILE"@) ==> known_kind_of(s) == KnownXRecordKind::MaterialAsset,
        eq_ci(s, "SPECULARTILE"@) ==> known_kind_of(s) == KnownXRecordKind::MaterialAsset,
        eq_ci(s, "BUMP"@) ==> known_kind_of(s) == KnownXRecordKind::MaterialAsset,
        eq_ci(s, "DIFFUSE"@) ==> known_kind_of(s) == KnownXRecordKind::MaterialAsset,
        eq_ci(s, "MATERIALDICT"@) ==> known_kind_of(s) == KnownXRecordKind::MaterialAsset,
        eq_ci(s, "VIZ XML MATERIAL DEFINITION"@) ==> known_kind_of(s) == KnownXRecordKind::MaterialAsset,
        eq_ci(s, "ACAD_MLATT"@) ==> known_kind_of(s) == KnownXRecordKind::Metadata,
        eq_ci(s, "ACAD_VIEWS_VIEW_CUSTOM"@) ==> known_kind_of(s) == KnownXRecordKind::Metadata,
        eq_ci(s, "AECDEPRECATIONHISTORY"@) ==> known_kind_of(s) == KnownXRecordKind::Metadata,
        eq_ci(s, "CEPSNID"@) ==> known_kind_of(s) == KnownXRecordKind::Metadata,
        eq_ci(s, "CEPSNTYPE"@) ==> known_kind_of(s) == KnownXRecordKind::Metadata,
        eq_ci(s, "COLORDICT"@) ==> known_kind_of(s) == KnownXRecordKind::Metadata,
        eq_ci(s, "INSUNITS"@) ==> known_kind_of(s) == KnownXRecordKind::Metadata,
        eq_ci(s, "LWETCUNION"@) ==> known_kind_of(s) == KnownXRecordKind::Metadata,
        eq_ci(s, "MCS_DOCUMENT_ID"@) ==> known_kind_of(s) == KnownXRecordKind::Metadata,
        eq_ci(s, "MCS_PARAMS_DATA"@) ==> known_kind_of(s) == KnownXRecordKind::Metadata,
        eq_ci(s, "MC_VERSION_DATA"@) ==> known_kind_of(s) == KnownXRecordKind::Metadata,
        eq_ci(s, "VERSIONGUID"@) ==> known_kind_of(s) == KnownXRecordKind::Metadata,
{
    if eq_ci(s, "ADSK_XREC_LAYER_ALPHA_OVR"@) {
        lemma_key_0(s);
    }
    if eq_ci(s, "ADSK_XREC_LAYER_COLOR_OVR"@) {
        lemma_key_1(s);
    }
    if eq_ci(s, "ADSK_XREC_LAYER_LINETYPE_OVR"@) {
        lemma_key_2(s);
    }
    if eq_ci(s, "ADSK_XREC_LAYER_LINEWT_OVR"@) {
        lemma_key_3(s);
    }
    if eq_ci(s, "ADSK_XREC_LAYER_RECONCILED"@) {
        lemma_key_4(s);
    }
    if eq_ci(s, "ACADLAYERSTATEANNOSCALE"@) {
        lemma_key_5(s);
    }
    if eq_ci(s, "ASDK_XREC_ANNOTATION_SCALE_INFO"@) {
        lemma_key_6(s);
    }
    if eq_ci(s, "ASDK_XREC_ANNO_SCALE_INFO"@) {
        lemma_key_7(s);
    }
    if eq_ci(s, "ADSK_XREC_VTR_ANNOSCALE_DATA"@) {
        lemma_key_8(s);
    }
    if eq_ci(s, "ADSK_XREC_SUBDVERTEXTEXCOORDS"@) {
        lemma_key_9(s);
    }
    if eq_ci(s, "ACAD_XREC_ROUNDTRIP"@) {
        lemma_key_10(s);
    }
    if eq_ci(s, "ACAD_MTEXT_RT"@) {
        lemma_key_11(s);
    }
    if eq_ci(s, "ACAD_MTEXT_2008_RT"@) {
        lemma_key_12(s);
    }
    if eq_ci(s, "ACDBHEADERROUNDTRIPXREC"@) {
        lemma_key_13(s);
    }
    if eq_ci(s, "AUXHDRRNDTRIPDATA"@) {
        lemma_key_14(s);
    }
    if eq_ci(s, "ACDB_RECOMPOSE_DATA"@) {
        lemma_key_15(s);
    }
    if eq_ci(s, "ACAD_ENHANCEDBLOCKHISTORY"@) {
        lemma_key_16(s);
    }
    if eq_ci(s, "ASEBLOCKHIERARCHYINDEXRECORD"@) {
        lemma_key_17(s);
    }
    if eq_ci(s, "ADSK_XREC_LAYOUTTHUMBNAIL"@) {
        lemma_key_18(s);
    }
    if eq_ci(s, "ADSK_XREC_VTRANIMATIONINFO"@) {
        lemma_key_19(s);
    }
    if eq_ci(s, "ADSK_XREC_VTRTHUMBNAIL"@) {
        lemma_key_20(s);
    }
    if eq_ci(s, "ADSK_XREC_VTRVIEWINFO"@) {
        lemma_key_21(s);
    }
    if eq_ci(s, "ADSK_XREC_PHOTOMETRICLIGHTINFO"@) {
        lemma_key_22(s);
    }
    if eq_ci(s, "LIGHTINGQUALITY"@) {
        lemma_key_23(s);
    }
    if eq_ci(s, "ACAD_LAST_SAVED_VERSION_INFO"@) {
        lemma_key_24(s);
    }
    if eq_ci(s, "ACAD_CIP_PREVIOUS_PRODUCT_INFO"@) {
        lemma_key_25(s);
    }
    if eq_ci(s, "DWGPROPS"@) {
        lemma_key_26(s);
    }
    if eq_ci(s, "FINGERPRINTGUID"@) {
        lemma_key_27(s);
    }
    if eq_ci(s, "ACADDIM"@) {
        lemma_key_28(s);
    }
    if eq_ci(s, "DIMSTYLEDATA"@) {
        lemma_key_29(s);
    }
    if eq_ci(s, "DIMLTEX1"@) {
        lemma_key_30(s);
    }
    if eq_ci(s, "DIMLTEX2"@) {
        lemma_key_31(s);
    }
    if eq_ci(s, "DIMLTYPE"@) {
        lemma_key_32(s);
    }
    if eq_ci(s, "TSTACKALIGN"@) {
        lemma_key_33(s);
    }
    if eq_ci(s, "TSTACKSIZE"@) {
        lemma_key_34(s);
    }
    if eq_ci(s, "PUCSBASE"@) {
        lemma_key_35(s);
    }
    if eq_ci(s, "PUCSORGBACK"@) {
        lemma_key_36(s);
    }
    if eq_ci(s, "PUCSORGBOTTOM"@) {
        lemma_key_37(s);
    }
    if eq_ci(s, "PUCSORGFRONT"@) {
        lemma_key_38(s);
    }
    if eq_ci(s, "PUCSORGLEFT"@) {
        lemma_key_39(s);
    }
    if eq_ci(s, "PUCSORGRIGHT"@) {
        lemma_key_40(s);
    }
    if eq_ci(s, "PUCSORGTOP"@) {
        lemma_key_41(s);
    }
    if eq_ci(s, "PUCSORTHOREF"@) {
        lemma_key_42(s);
    }
    if eq_ci(s, "PUCSORTHOVIEW"@) {
        lemma_key_43(s);
    }
    if eq_ci(s, "UCSBASE"@) {
        lemma_key_44(s);
    }
    if eq_ci(s, "UCSORGBACK"@) {
        lemma_key_45(s);
    }
    if eq_ci(s, "UCSORGBOTTOM"@) {
        lemma_key_46(s);
    }
    if eq_ci(s, "UCSORGFRONT"@) {
        lemma_key_47(s);
    }
    if eq_ci(s, "UCSORGLEFT"@) {
        lemma_key_48(s);
    }
    if eq_ci(s, "UCSORGRIGHT"@) {
        lemma_key_49(s);
    }
    if eq_ci(s, "UCSORGTOP"@) {
        lemma_key_50(s);
    }
    if eq_ci(s, "UCSORTHOREF"@) {
        lemma_key_51(s);
    }
    if eq_ci(s, "UCSORTHOVIEW"@) {
        lemma_key_52(s);
    }
    if eq_ci(s, "ACAD_LAYOUTSELFREF"@) {
        lemma_key_53(s);
    }
    if eq_ci(s, "LAYOUTDICT"@) {
        lemma_key_54(s);
    }
    if eq_ci(s, "PLOTSETDICT"@) {
        lemma_key_55(s);
    }
    if eq_ci(s, "PLOTSTYLNAMDICT"@) {
        lemma_key_56(s);
    }
    if eq_ci(s, "PSVPSCALE"@) {
        lemma_key_57(s);
    }
    if eq_ci(s, "STYLESHEET"@) {
        lemma_key_58(s);
    }
    if eq_ci(s, "HYPERLINKBASE"@) {
        lemma_key_59(s);
    }
    if eq_ci(s, "ADVMATERIAL"@) {
        lemma_key_60(s);
    }
    if eq_ci(s, "FBXASSET"@) {
        lemma_key_61(s);
    }
    if eq_ci(s, "BUMPTILE"@) {
        lemma_key_62(s);
    }
    if eq_ci(s, "DIFFUSETILE"@) {
        lemma_key_63(s);
    }
    if eq_ci(s, "OPACITYTILE"@) {
        lemma_key_64(s);
    }
    if eq_ci(s, "REFLECTIONTILE"@) {
        lemma_key_65(s);
    }
    if eq_ci(s, "REFRACTIONTILE"@) {
        lemma_key_66(s);
    }
    if eq_ci(s, "SPECULARTILE"@) {
        lemma_key_67(s);
    }
    if eq_ci(s, "BUMP"@) {
        lemma_key_68(s);
    }
    if eq_ci(s, "DIFFUSE"@) {
        lemma_key_69(s);
    }
    if eq_ci(s, "MATERIALDICT"@) {
        lemma_key_70(s);
    }
    if eq_ci(s, "VIZ XML MATERIAL DEFINITION"@) {
        lemma_key_71(s);
    }
    if eq_ci(s, "ACAD_MLATT"@) {
        lemma_key_72(s);
    }
    if eq_ci(s, "ACAD_VIEWS_VIEW_CUSTOM"@) {
        lemma_key_73(s);
    }
    if eq_ci(s, "AECDEPRECATIONHISTORY"@) {
        lemma_key_74(s);
    }
    if eq_ci(s, "CEPSNID"@) {
        lemma_key_75(s);
    }
    if eq_ci(s, "CEPSNTYPE"@) {
        lemma_key_76(s);
    }
    if eq_ci(s, "COLORDICT"@) {
        lemma_key_77(s);
    }
    if eq_ci(s, "INSUNITS"@) {
        lemma_key_78(s);
    }
    if eq_ci(s, "LWETCUNION"@) {
        lemma_key_79(s);
    }
    if eq_ci(s, "MCS_DOCUMENT_ID"@) {
        lemma_key_80(s);
    }
    if eq_ci(s, "MCS_PARAMS_DATA"@) {
        lemma_key_81(s);
    }
    if eq_ci(s, "MC_VERSION_DATA"@) {
        lemma_key_82(s);
    }
    if eq_ci(s, "VERSIONGUID"@) {
        lemma_key_83(s);
    }
}

} // verus!
