//! The boundary to the outside crates that parse, decode and encode
//! image data. Every item here is trusted: its contract states what
//! the called crate's source shows, and nothing in this module is
//! verified. Results that are functions of the input bytes alone are
//! given uninterpreted names, which the verified pipeline reasons
//! about.

use vstd::prelude::*;
use dicom_pixeldata::PixelDecoder;

verus! {

#[verifier::external_type_specification]
#[verifier::external_body]
#[verifier::reject_recursive_types(O)]
pub struct ExFileDicomObject<O>(dicom_object::FileDicomObject<O>);

#[verifier::external_type_specification]
#[verifier::external_body]
#[verifier::reject_recursive_types(D)]
pub struct ExInMemDicomObject<D>(dicom_object::InMemDicomObject<D>);

#[verifier::external_type_specification]
#[verifier::external_body]
pub struct ExStandardDataDictionary(dicom_object::StandardDataDictionary);

#[verifier::external_type_specification]
#[verifier::external_body]
pub struct ExDecodedPixelData<'a>(dicom_pixeldata::DecodedPixelData<'a>);

/// Whether the outside parser accepts these bytes as a structured
/// medical image object.
pub uninterp spec fn parse_ok(file: Seq<u8>) -> bool;

/// The textual value of the named attribute of the object these bytes
/// encode, or `None` where the attribute is absent or not textual.
pub uninterp spec fn tag_text_of(file: Seq<u8>, group: u16, element: u16) -> Option<Seq<char>>;

/// Whether the pixel payload of the object these bytes encode decodes.
pub uninterp spec fn decode_ok(file: Seq<u8>) -> bool;

/// Width in samples of every frame of the decoded pixel payload.
pub uninterp spec fn cols_of(file: Seq<u8>) -> u32;

/// Height in samples of every frame of the decoded pixel payload.
pub uninterp spec fn rows_of(file: Seq<u8>) -> u32;

/// Number of frames of the decoded pixel payload.
pub uninterp spec fn frame_count_of(file: Seq<u8>) -> u32;

/// Bits effectively used per stored sample of the decoded pixel
/// payload, as the object declares it. The decoder stores the
/// attribute unvalidated.
pub uninterp spec fn bits_stored_of(file: Seq<u8>) -> u16;

/// Whether every value-of-interest lookup table the payload declares
/// fits the grayscale conversion's bit width, so that no table is
/// wider than the values it maps.
pub uninterp spec fn voi_lut_ok_of(file: Seq<u8>) -> bool;

/// The 8-bit grayscale samples of one frame of the decoded pixel
/// payload, or `None` where that frame cannot be converted. For
/// payloads wider than 8 bits the decoder reads each sample word in
/// the machine's native byte order, so this names the result for
/// machines of one byte order; the pipeline never carries a decoded
/// payload across machines.
pub uninterp spec fn frame_samples_of(file: Seq<u8>, frame: u32) -> Option<Seq<u8>>;

/// The compressed image encoding of a single-channel 8-bit sample
/// buffer with the given dimensions, or `None` where encoding fails.
pub uninterp spec fn jpeg_l8_of(samples: Seq<u8>, width: u32, height: u32) -> Option<Seq<u8>>;

/// A staged medical image object: the outside parser's view of it,
/// together with the bytes it was parsed from. Its view is those
/// bytes; every trusted contract below speaks of them.
pub struct StagedObject {
    obj: dicom_object::DefaultDicomObject,
    src: Vec<u8>,
}

impl View for StagedObject {
    type V = Seq<u8>;

    closed spec fn view(&self) -> Seq<u8> {
        self.src@
    }
}

/// A decoded pixel payload, still tied to the bytes of the object it
/// came from. Its view is those bytes.
pub struct Decoded<'a> {
    pd: dicom_pixeldata::DecodedPixelData<'a>,
    src: &'a Vec<u8>,
}

impl<'a> View for Decoded<'a> {
    type V = Seq<u8>;

    closed spec fn view(&self) -> Seq<u8> {
        self.src@
    }
}

/// Relies on `dicom_object::from_reader`: whether the bytes parse,
/// and what object they parse to, depend on the bytes alone.
#[verifier::external_body]
pub(crate) fn parse_object(bytes: Vec<u8>) -> (r: Result<StagedObject, String>)
    ensures
        r matches Ok(o) ==> o@ == bytes@ && parse_ok(bytes@),
        r is Err ==> !parse_ok(bytes@),
{
    match dicom_object::from_reader(bytes.as_slice()) {
        Ok(obj) => Ok(StagedObject { obj, src: bytes }),
        Err(e) => Err(e.to_string()),
    }
}

/// Relies on `InMemDicomObject::element` and `DataElement::to_str`:
/// the attribute's textual value (trailing whitespace trimmed) is a
/// function of the object's bytes and the tag alone, and the two
/// calls fail exactly where the attribute is absent or not textual.
#[verifier::external_body]
pub(crate) fn element_text(o: &StagedObject, group: u16, element: u16) -> (r: Result<
    String,
    String,
>)
    ensures
        r matches Ok(s) ==> tag_text_of(o@, group, element) == Some(s@),
        r is Err ==> tag_text_of(o@, group, element) is None,
{
    match o.obj.element(dicom_object::Tag(group, element)) {
        Ok(el) => match el.to_str() {
            Ok(s) => Ok(s.into_owned()),
            Err(e) => Err(e.to_string()),
        },
        Err(e) => Err(e.to_string()),
    }
}

/// Relies on `dicom_pixeldata::PixelDecoder::decode_pixel_data`:
/// whether the pixel payload decodes depends on the object's bytes
/// alone.
#[verifier::external_body]
pub(crate) fn decode_object<'a>(o: &'a StagedObject) -> (r: Result<Decoded<'a>, String>)
    ensures
        r matches Ok(d) ==> d@ == o@ && decode_ok(o@),
        r is Err ==> !decode_ok(o@),
{
    match o.obj.decode_pixel_data() {
        Ok(pd) => Ok(Decoded { pd, src: &o.src }),
        Err(e) => Err(e.to_string()),
    }
}

/// Relies on `DecodedPixelData::columns`: the width stored by the
/// decoder, a function of the object's bytes alone.
#[verifier::external_body]
pub(crate) fn decoded_columns(d: &Decoded<'_>) -> (r: u32)
    ensures
        r == cols_of(d@),
{
    d.pd.columns()
}

/// Relies on `DecodedPixelData::rows`: the height stored by the
/// decoder, a function of the object's bytes alone.
#[verifier::external_body]
pub(crate) fn decoded_rows(d: &Decoded<'_>) -> (r: u32)
    ensures
        r == rows_of(d@),
{
    d.pd.rows()
}

/// Relies on `DecodedPixelData::number_of_frames`: the frame count
/// stored by the decoder, a function of the object's bytes alone.
#[verifier::external_body]
pub(crate) fn decoded_frame_count(d: &Decoded<'_>) -> (r: u32)
    ensures
        r == frame_count_of(d@),
{
    d.pd.number_of_frames()
}

/// Relies on `DecodedPixelData::bits_stored`: the stored bit depth
/// read by the decoder, a function of the object's bytes alone.
#[verifier::external_body]
pub(crate) fn decoded_bits_stored(d: &Decoded<'_>) -> (r: u16)
    ensures
        r == bits_stored_of(d@),
{
    d.pd.bits_stored()
}

/// Relies on `DecodedPixelData::samples_per_pixel`, `bits_allocated`,
/// `bits_stored` and `voi_lut_sequence`: repeats the conversion's own
/// selection of a lookup-table bit width (8 for 8-bit payloads, the
/// stored depth for 16-bit ones; other layouts and non-grayscale
/// payloads build no table) and reports whether every declared table
/// fits it. A function of the object's bytes alone.
#[verifier::external_body]
pub(crate) fn decoded_voi_lut_ok(d: &Decoded<'_>) -> (r: bool)
    ensures
        r == voi_lut_ok_of(d@),
{
    let ba = d.pd.bits_allocated();
    if d.pd.samples_per_pixel() != 1 || (ba != 8 && ba != 16) {
        return true;
    }
    let width: u32 = if ba == 8 {
        8
    } else {
        d.pd.bits_stored() as u32
    };
    match d.pd.voi_lut_sequence() {
        Ok(Some(luts)) => luts.iter().all(|l| (l.bits_stored as u32) <= width.next_power_of_two()),
        _ => true,
    }
}

/// Relies on `DecodedPixelData::to_dynamic_image` followed by
/// `DynamicImage::to_luma8`: the 8-bit grayscale samples of one
/// frame, a function of the object's bytes and the frame index alone
/// (for payloads wider than 8 bits, per machine byte order, as at
/// `frame_samples_of`). The conversion panics on a stored bit depth
/// outside 1..=32 (its lookup-table constructor asserts the range),
/// on a declared value-of-interest table wider than the conversion's
/// bit width, and can index past the per-frame rescale values for a
/// frame index at or past the frame count, so all three inputs are
/// excluded here.
#[verifier::external_body]
pub(crate) fn frame_luma8(d: &Decoded<'_>, frame: u32) -> (r: Result<Vec<u8>, String>)
    requires
        frame < frame_count_of(d@),
        1 <= bits_stored_of(d@) <= 32,
        voi_lut_ok_of(d@),
    ensures
        r matches Ok(v) ==> frame_samples_of(d@, frame) == Some(v@),
        r is Err ==> frame_samples_of(d@, frame) is None,
{
    match d.pd.to_dynamic_image(frame) {
        Ok(img) => Ok(img.to_luma8().into_raw()),
        Err(e) => Err(e.to_string()),
    }
}

/// Relies on `image::write_buffer_with_format` with an 8-bit
/// single-channel layout and the JPEG format: the encoder is pure
/// Rust and its output is a function of the samples and dimensions
/// alone. It panics where the buffer does not hold exactly
/// `width * height` samples, so that input is excluded here.
#[verifier::external_body]
pub(crate) fn encode_jpeg_l8(samples: &Vec<u8>, width: u32, height: u32) -> (r: Result<
    Vec<u8>,
    String,
>)
    requires
        samples@.len() == width * height,
    ensures
        r matches Ok(b) ==> jpeg_l8_of(samples@, width, height) == Some(b@),
        r is Err ==> jpeg_l8_of(samples@, width, height) is None,
{
    let mut out = std::io::Cursor::new(Vec::new());
    match image::write_buffer_with_format(
        &mut out,
        samples.as_slice(),
        width,
        height,
        image::ExtendedColorType::L8,
        image::ImageFormat::Jpeg,
    ) {
        Ok(()) => Ok(out.into_inner()),
        Err(e) => Err(e.to_string()),
    }
}

} // verus!
