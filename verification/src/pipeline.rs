//! The per-object conversion pipeline: stage the retrieved bytes,
//! extract the identifying metadata, render and encode the pixel
//! payload, and derive the date-partitioned destination key. Each
//! error is scoped to its own object; nothing here ends the batch.

use vstd::prelude::*;
use crate::date::{date_str_valid, parse_acquisition_date};
use crate::partition::{
    file_name_spec, output_file_name, partition_path, partition_path_spec, source_key,
    source_key_spec,
};
use crate::render::{
    flat_samples, frame_seq, frame_size, frames_renderable, render_object, rendered_from, Rendered,
    RenderError,
};
use crate::trusted::{
    bits_stored_of, cols_of, decode_ok, encode_jpeg_l8, frame_count_of, frame_samples_of,
    jpeg_l8_of, parse_object, element_text, parse_ok, rows_of, tag_text_of, voi_lut_ok_of,
    StagedObject,
};

verus! {

/// The fixed output color model: bits per sample of every stored
/// image. Together with `OUTPUT_CHANNELS` and
/// `partition::output_extension` this names the pipeline's one output
/// policy — a single-channel 8-bit grayscale image, compressed with
/// the JPEG codec (which `encode_jpeg_l8` carries out). A design
/// choice, not a configuration surface.
pub const OUTPUT_SAMPLE_BITS: u16 = 8;

/// The fixed output color model: samples per pixel of every stored
/// image — one grayscale channel; any color information of the source
/// is discarded.
pub const OUTPUT_CHANNELS: u16 = 1;

/// Group number of the series-identifier attribute.
pub const SERIES_INSTANCE_UID_GROUP: u16 = 0x0020;

/// Element number of the series-identifier attribute.
pub const SERIES_INSTANCE_UID_ELEMENT: u16 = 0x000E;

/// Group number of the object-identifier attribute.
pub const SOP_INSTANCE_UID_GROUP: u16 = 0x0008;

/// Element number of the object-identifier attribute.
pub const SOP_INSTANCE_UID_ELEMENT: u16 = 0x0018;

/// Group number of the acquisition-date attribute.
pub const INSTANCE_CREATION_DATE_GROUP: u16 = 0x0008;

/// Element number of the acquisition-date attribute.
pub const INSTANCE_CREATION_DATE_ELEMENT: u16 = 0x0012;

/// Why one unit of work failed. Every variant is fatal to its own
/// object only.
pub enum UnitError {
    /// The retrieved bytes are not a well-formed object.
    NotParsed { detail: String },
    /// A requested attribute is absent or has no textual value.
    MissingAttribute { group: u16, element: u16, detail: String },
    /// The pixel payload could not be decoded.
    Decode { detail: String },
    /// The pixel payload declares a stored bit depth the converter
    /// cannot take.
    UnsupportedDepth { bits_stored: u16 },
    /// The pixel payload declares a value-of-interest lookup table
    /// wider than the conversion's bit width.
    UnsupportedLut {},
    /// One frame could not be converted to 8-bit grayscale.
    Frame { frame: u32, detail: String },
    /// One converted frame did not hold exactly width x height samples.
    FrameGeometry { frame: u32 },
    /// The flattened buffer is not a single frame, which the fixed
    /// output format cannot carry.
    UnsupportedLayout { frame_count: u32 },
    /// The output image encoder failed.
    Encode { detail: String },
    /// The acquisition-date attribute is not a valid eight-digit date.
    BadDate { value: String },
}

impl UnitError {
    /// A one-line account of the failure, for diagnostics: a fixed
    /// phrase for the failing stage, and the underlying cause where
    /// one was reported.
    pub fn describe(&self) -> (r: String)
        ensures
            self matches UnitError::NotParsed { detail } ==> r@ == "object does not parse: "@
                + detail@,
            self matches UnitError::MissingAttribute { detail, .. } ==> r@
                == "attribute unreadable: "@ + detail@,
            self matches UnitError::Decode { detail } ==> r@ == "pixel data does not decode: "@
                + detail@,
            self matches UnitError::UnsupportedDepth { .. } ==> r@
                == "stored bit depth is not supported"@,
            self matches UnitError::UnsupportedLut { .. } ==> r@
                == "lookup table is wider than the image depth"@,
            self matches UnitError::Frame { detail, .. } ==> r@ == "frame does not convert: "@
                + detail@,
            self matches UnitError::FrameGeometry { .. } ==> r@
                == "frame size does not match the object"@,
            self matches UnitError::UnsupportedLayout { .. } ==> r@
                == "buffer is not a single frame"@,
            self matches UnitError::Encode { detail } ==> r@ == "output image does not encode: "@
                + detail@,
            self matches UnitError::BadDate { .. } ==> r@
                == "acquisition date is not a valid YYYYMMDD date"@,
    {
        match self {
            UnitError::NotParsed { detail } => "object does not parse: ".to_owned().concat(
                detail.as_str(),
            ),
            UnitError::MissingAttribute { detail, .. } => "attribute unreadable: "
                .to_owned().concat(detail.as_str()),
            UnitError::Decode { detail } => "pixel data does not decode: ".to_owned().concat(
                detail.as_str(),
            ),
            UnitError::UnsupportedDepth { .. } => "stored bit depth is not supported".to_owned(),
            UnitError::UnsupportedLut { .. } => "lookup table is wider than the image depth"
                .to_owned(),
            UnitError::Frame { detail, .. } => "frame does not convert: ".to_owned().concat(
                detail.as_str(),
            ),
            UnitError::FrameGeometry { .. } => "frame size does not match the object".to_owned(),
            UnitError::UnsupportedLayout { .. } => "buffer is not a single frame".to_owned(),
            UnitError::Encode { detail } => "output image does not encode: ".to_owned().concat(
                detail.as_str(),
            ),
            UnitError::BadDate { .. } => "acquisition date is not a valid YYYYMMDD date"
                .to_owned(),
        }
    }

    /// The error concerns the pixel payload or the output encoding,
    /// not parsing, attributes or the acquisition date.
    pub open spec fn is_image_error(self) -> bool {
        match self {
            UnitError::NotParsed { .. } => false,
            UnitError::MissingAttribute { .. } => false,
            UnitError::BadDate { .. } => false,
            _ => true,
        }
    }
}

/// Stages one retrieved object: parses its bytes as a structured
/// medical image object. Succeeds exactly when the bytes parse.
pub fn stage_object(file: Vec<u8>) -> (r: Result<StagedObject, UnitError>)
    ensures
        r matches Ok(o) ==> o@ == file@ && parse_ok(file@),
        r matches Err(e) ==> !parse_ok(file@) && e matches UnitError::NotParsed { .. },
{
    match parse_object(file) {
        Ok(o) => Ok(o),
        Err(detail) => Err(UnitError::NotParsed { detail }),
    }
}

/// Reads the textual value of one named attribute of a staged
/// object. Succeeds exactly when the object holds the attribute with
/// a textual value.
pub fn collect_tag_data(o: &StagedObject, group: u16, element: u16) -> (r: Result<
    String,
    UnitError,
>)
    ensures
        r matches Ok(s) ==> tag_text_of(o@, group, element) == Some(s@),
        r matches Err(e) ==> tag_text_of(o@, group, element) is None && (e matches
            UnitError::MissingAttribute { group: g, element: el, .. } && g == group && el
            == element),
{
    match element_text(o, group, element) {
        Ok(s) => Ok(s),
        Err(detail) => Err(UnitError::MissingAttribute { group, element, detail }),
    }
}

/// A rendered object together with its compressed encoding.
pub struct EncodedImage {
    pub rendered: Rendered,
    pub jpeg: Vec<u8>,
}

/// Renders the pixel payload of a staged object and encodes the
/// flattened buffer as a compressed 8-bit grayscale image of one
/// frame's dimensions. The fixed output format carries exactly one
/// frame's worth of samples, so a buffer of any other size is
/// rejected rather than encoded.
pub fn save_image_data(o: &StagedObject) -> (r: Result<EncodedImage, UnitError>)
    ensures
        r matches Ok(e) ==> {
            &&& rendered_from(e.rendered, o@)
            &&& e.rendered.samples@.len() == frame_size(o@)
            &&& jpeg_l8_of(flat_samples(o@), cols_of(o@), rows_of(o@)) == Some(e.jpeg@)
        },
        r is Ok <==> {
            &&& frames_renderable(o@)
            &&& frame_count_of(o@) * frame_size(o@) == frame_size(o@)
            &&& jpeg_l8_of(flat_samples(o@), cols_of(o@), rows_of(o@)) is Some
        },
        r matches Err(e) ==> e.is_image_error(),
        r matches Err(UnitError::Decode { .. }) ==> !decode_ok(o@),
        r matches Err(UnitError::UnsupportedDepth { bits_stored }) ==> decode_ok(o@)
            && bits_stored == bits_stored_of(o@) && !(1 <= bits_stored_of(o@) <= 32),
        r matches Err(UnitError::UnsupportedLut { .. }) ==> decode_ok(o@) && 1 <= bits_stored_of(
            o@,
        ) <= 32 && !voi_lut_ok_of(o@),
        r matches Err(UnitError::Frame { frame, .. }) ==> decode_ok(o@) && frame < frame_count_of(
            o@,
        ) && frame_samples_of(o@, frame) is None,
        r matches Err(UnitError::FrameGeometry { frame }) ==> decode_ok(o@) && frame
            < frame_count_of(o@) && frame_samples_of(o@, frame) is Some && frame_seq(
            o@,
            frame,
        ).len() != frame_size(o@),
        r matches Err(UnitError::UnsupportedLayout { frame_count }) ==> frames_renderable(o@)
            && frame_count == frame_count_of(o@) && frame_count_of(o@) * frame_size(o@)
            != frame_size(o@),
        r matches Err(UnitError::Encode { .. }) ==> frames_renderable(o@) && frame_count_of(o@)
            * frame_size(o@) == frame_size(o@) && jpeg_l8_of(
            flat_samples(o@),
            cols_of(o@),
            rows_of(o@),
        ) is None,
{
    let rendered = match render_object(o) {
        Ok(img) => img,
        Err(RenderError::Decode { detail }) => {
            return Err(UnitError::Decode { detail });
        },
        Err(RenderError::UnsupportedDepth { bits_stored }) => {
            return Err(UnitError::UnsupportedDepth { bits_stored });
        },
        Err(RenderError::UnsupportedLut {}) => {
            return Err(UnitError::UnsupportedLut {});
        },
        Err(RenderError::Frame { frame, detail }) => {
            return Err(UnitError::Frame { frame, detail });
        },
        Err(RenderError::FrameGeometry { frame }) => {
            return Err(UnitError::FrameGeometry { frame });
        },
    };
    proof {
        assert((rendered.width as int) * (rendered.height as int) <= 4294967295int
            * 4294967295int) by (nonlinear_arith)
            requires
                0 <= rendered.width as int <= 4294967295int,
                0 <= rendered.height as int <= 4294967295int,
        ;
    }
    let one_frame: u64 = (rendered.width as u64) * (rendered.height as u64);
    if rendered.samples.len() as u64 != one_frame {
        return Err(UnitError::UnsupportedLayout { frame_count: rendered.frame_count });
    }
    match encode_jpeg_l8(&rendered.samples, rendered.width, rendered.height) {
        Ok(jpeg) => Ok(EncodedImage { rendered, jpeg }),
        Err(detail) => Err(UnitError::Encode { detail }),
    }
}

/// One converted object, ready for storage: its output file name, its
/// date-partitioned destination key, its frame geometry, and the
/// compressed image bytes.
pub struct ConvertedObject {
    pub file_name: String,
    pub partition_key: String,
    pub width: u32,
    pub height: u32,
    pub frame_count: u32,
    pub jpeg: Vec<u8>,
}

/// Everything the conversion of one object asks of its bytes: they
/// parse, carry the three attributes with a valid acquisition date,
/// render to a single frame, and encode. A function of the object's
/// own bytes alone.
pub open spec fn conversion_succeeds(file: Seq<u8>) -> bool {
    &&& parse_ok(file)
    &&& tag_text_of(file, SERIES_INSTANCE_UID_GROUP, SERIES_INSTANCE_UID_ELEMENT) is Some
    &&& tag_text_of(file, SOP_INSTANCE_UID_GROUP, SOP_INSTANCE_UID_ELEMENT) is Some
    &&& tag_text_of(
        file,
        INSTANCE_CREATION_DATE_GROUP,
        INSTANCE_CREATION_DATE_ELEMENT,
    ) matches Some(date) && date_str_valid(date)
    &&& frames_renderable(file)
    &&& frame_count_of(file) * frame_size(file) == frame_size(file)
    &&& jpeg_l8_of(flat_samples(file), cols_of(file), rows_of(file)) is Some
}

/// `c` is the conversion of the object these bytes encode, for this
/// destination prefix: its names derive from the extracted
/// attributes, its geometry from the decoder, and its image from the
/// flattened samples. A function of the bytes and the prefix alone.
pub open spec fn converted_ok(file: Seq<u8>, dst_prefix: Seq<char>, c: ConvertedObject) -> bool {
    &&& parse_ok(file)
    &&& tag_text_of(
        file,
        SERIES_INSTANCE_UID_GROUP,
        SERIES_INSTANCE_UID_ELEMENT,
    ) matches Some(series) && tag_text_of(
        file,
        SOP_INSTANCE_UID_GROUP,
        SOP_INSTANCE_UID_ELEMENT,
    ) matches Some(object) && tag_text_of(
        file,
        INSTANCE_CREATION_DATE_GROUP,
        INSTANCE_CREATION_DATE_ELEMENT,
    ) matches Some(date) && {
        &&& date_str_valid(date)
        &&& c.file_name@ == file_name_spec(series, object)
        &&& c.partition_key@ == partition_path_spec(
            dst_prefix,
            date,
            file_name_spec(series, object),
        )
    }
    &&& c.width == cols_of(file)
    &&& c.height == rows_of(file)
    &&& c.frame_count == frame_count_of(file)
    &&& jpeg_l8_of(flat_samples(file), cols_of(file), rows_of(file)) == Some(c.jpeg@)
}

/// Converts one retrieved object end to end: stages the bytes,
/// extracts the series identifier, the object identifier and the
/// acquisition date, renders and encodes the pixel payload, and
/// derives the output file name `<series>|<object>.jpeg` and the
/// destination key `<prefix>/compressed_images/<YYYY_MM>/<name>`.
pub fn process_object(file: Vec<u8>, dst_prefix: &str) -> (r: Result<ConvertedObject, UnitError>)
    ensures
        r matches Ok(c) ==> converted_ok(file@, dst_prefix@, c),
        r is Ok <==> conversion_succeeds(file@),
        r matches Err(UnitError::NotParsed { .. }) ==> !parse_ok(file@),
        r matches Err(UnitError::MissingAttribute { group, element, .. }) ==> parse_ok(file@)
            && tag_text_of(file@, group, element) is None,
        r matches Err(e) && e.is_image_error() ==> parse_ok(file@),
        r matches Err(UnitError::Decode { .. }) ==> !decode_ok(file@),
        r matches Err(UnitError::BadDate { value }) ==> parse_ok(file@) && tag_text_of(
            file@,
            INSTANCE_CREATION_DATE_GROUP,
            INSTANCE_CREATION_DATE_ELEMENT,
        ) == Some(value@) && !date_str_valid(value@),
{
    let staged = stage_object(file)?;
    let series = collect_tag_data(
        &staged,
        SERIES_INSTANCE_UID_GROUP,
        SERIES_INSTANCE_UID_ELEMENT,
    )?;
    let object = collect_tag_data(&staged, SOP_INSTANCE_UID_GROUP, SOP_INSTANCE_UID_ELEMENT)?;
    let date = collect_tag_data(
        &staged,
        INSTANCE_CREATION_DATE_GROUP,
        INSTANCE_CREATION_DATE_ELEMENT,
    )?;
    let encoded = save_image_data(&staged)?;
    if parse_acquisition_date(date.as_str()).is_none() {
        return Err(UnitError::BadDate { value: date });
    }
    let file_name = output_file_name(series.as_str(), object.as_str());
    let partition_key = partition_path(dst_prefix, date.as_str(), file_name.as_str());
    Ok(
        ConvertedObject {
            file_name,
            partition_key,
            width: encoded.rendered.width,
            height: encoded.rendered.height,
            frame_count: encoded.rendered.frame_count,
            jpeg: encoded.jpeg,
        },
    )
}

/// Converts every object of a batch, one outcome per object, in batch
/// order. Each outcome is fixed by its own object's bytes and the
/// prefix alone: an object that cannot be converted is reported
/// failed in its own slot, and every other object's outcome is
/// exactly what it would be without it.
pub fn process_batch(objects: &Vec<Vec<u8>>, dst_prefix: &str) -> (r: Vec<
    Result<ConvertedObject, UnitError>,
>)
    ensures
        r@.len() == objects@.len(),
        forall|i: int|
            0 <= i < r@.len() ==> ((#[trigger] r@[i]) is Ok <==> conversion_succeeds(
                objects@[i]@,
            )),
        forall|i: int|
            0 <= i < r@.len() ==> ((#[trigger] r@[i]) matches Ok(c) ==> converted_ok(
                objects@[i]@,
                dst_prefix@,
                c,
            )),
{
    let mut outcomes: Vec<Result<ConvertedObject, UnitError>> = Vec::new();
    let mut i: usize = 0;
    while i < objects.len()
        invariant
            i <= objects@.len(),
            outcomes@.len() == i,
            forall|k: int|
                0 <= k < i ==> ((#[trigger] outcomes@[k]) is Ok <==> conversion_succeeds(
                    objects@[k]@,
                )),
            forall|k: int|
                0 <= k < i ==> ((#[trigger] outcomes@[k]) matches Ok(c) ==> converted_ok(
                    objects@[k]@,
                    dst_prefix@,
                    c,
                )),
        decreases objects@.len() - i,
    {
        let bytes = objects[i].clone();
        proof {
            assert forall|t: int| 0 <= t < bytes@.len() implies bytes@[t] == objects@[i as int]@[t]
            by {
                assert(cloned::<u8>(objects@[i as int]@[t], bytes@[t]));
            }
            assert(bytes@ =~= objects@[i as int]@);
        }
        let outcome = process_object(bytes, dst_prefix);
        outcomes.push(outcome);
        i = i + 1;
    }
    outcomes
}

/// The batch descriptor an invocation delivers: the source and
/// destination of a batch, and the object keys to convert.
pub struct ImgCompressorConfig {
    pub source_bucket: String,
    pub source_prefix: String,
    pub target_bucket: String,
    pub target_prefix: String,
    pub files: Vec<String>,
}

/// The remote source key of every object of a batch, in batch order:
/// `<source_prefix>/<file>` for each listed file.
pub fn batch_source_keys(cfg: &ImgCompressorConfig) -> (r: Vec<String>)
    ensures
        r@.len() == cfg.files@.len(),
        forall|i: int|
            0 <= i < r@.len() ==> (#[trigger] r@[i])@ == source_key_spec(
                cfg.source_prefix@,
                cfg.files@[i]@,
            ),
{
    let mut keys: Vec<String> = Vec::new();
    let mut i: usize = 0;
    while i < cfg.files.len()
        invariant
            i <= cfg.files@.len(),
            keys@.len() == i,
            forall|k: int|
                0 <= k < i ==> (#[trigger] keys@[k])@ == source_key_spec(
                    cfg.source_prefix@,
                    cfg.files@[k]@,
                ),
        decreases cfg.files@.len() - i,
    {
        let key = source_key(cfg.source_prefix.as_str(), cfg.files[i].as_str());
        keys.push(key);
        i = i + 1;
    }
    keys
}

} // verus!
