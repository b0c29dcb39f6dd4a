//! Derivation of output names and date-partitioned destination keys
//! from an object's extracted metadata.

use vstd::prelude::*;

verus! {

/// File-name extension of the pipeline's one fixed output codec,
/// JPEG (see the output policy constants beside the pipeline).
pub open spec fn output_extension() -> Seq<char> {
    seq!['.', 'j', 'p', 'e', 'g']
}

/// The output file name derived from the series and object
/// identifiers: `<series>|<object>` and the fixed codec's extension.
pub open spec fn file_name_spec(series: Seq<char>, object: Seq<char>) -> Seq<char> {
    series + seq!['|'] + object + output_extension()
}

/// The year-month bucket derived from an eight-digit acquisition
/// date: its four year digits, an underscore, and its two month
/// digits (`YYYY_MM`).
pub open spec fn year_month_spec(date: Seq<char>) -> Seq<char>
    recommends
        date.len() == 8,
{
    date.subrange(0, 4) + seq!['_'] + date.subrange(4, 6)
}

/// The destination key for one converted object:
/// `<prefix>/compressed_images/<YYYY_MM>/<file name>`.
pub open spec fn partition_path_spec(
    prefix: Seq<char>,
    date: Seq<char>,
    file_name: Seq<char>,
) -> Seq<char> {
    prefix + seq!['/'] + seq![
        'c', 'o', 'm', 'p', 'r', 'e', 's', 's', 'e', 'd', '_', 'i', 'm', 'a', 'g', 'e', 's',
    ] + seq!['/'] + year_month_spec(date) + seq!['/'] + file_name
}

/// The remote key of a source object: `<prefix>/<file>`.
pub open spec fn source_key_spec(prefix: Seq<char>, file: Seq<char>) -> Seq<char> {
    prefix + seq!['/'] + file
}

/// Builds the output file name `<series>|<object>.jpeg`.
pub fn output_file_name(series: &str, object: &str) -> (r: String)
    ensures
        r@ == file_name_spec(series@, object@),
{
    let mut out = series.to_owned();
    out.append("|");
    out.append(object);
    out.append(".jpeg");
    proof {
        reveal_strlit("|");
        reveal_strlit(".jpeg");
        assert(out@ =~= file_name_spec(series@, object@));
    }
    out
}

/// Builds the remote key of a source object, `<prefix>/<file>`.
pub fn source_key(prefix: &str, file: &str) -> (r: String)
    ensures
        r@ == source_key_spec(prefix@, file@),
{
    let mut out = prefix.to_owned();
    out.append("/");
    out.append(file);
    proof {
        reveal_strlit("/");
        assert(out@ =~= source_key_spec(prefix@, file@));
    }
    out
}

/// Builds the destination key for one converted object from the
/// destination prefix, a valid eight-digit acquisition date, and the
/// output file name.
pub fn partition_path(prefix: &str, date: &str, file_name: &str) -> (r: String)
    requires
        date@.len() == 8,
    ensures
        r@ == partition_path_spec(prefix@, date@, file_name@),
{
    let mut out = prefix.to_owned();
    out.append("/compressed_images/");
    out.append(date.substring_char(0, 4));
    out.append("_");
    out.append(date.substring_char(4, 6));
    out.append("/");
    out.append(file_name);
    proof {
        reveal_strlit("/compressed_images/");
        reveal_strlit("_");
        reveal_strlit("/");
        assert(out@ =~= partition_path_spec(prefix@, date@, file_name@));
    }
    out
}

/// Partition-key derivation is a pure function of the series
/// identifier, the object identifier, the acquisition date and the
/// destination prefix: equal inputs always yield the same file name
/// and the same destination key.
pub proof fn lemma_partition_key_deterministic(
    series1: Seq<char>,
    object1: Seq<char>,
    date1: Seq<char>,
    prefix1: Seq<char>,
    series2: Seq<char>,
    object2: Seq<char>,
    date2: Seq<char>,
    prefix2: Seq<char>,
)
    requires
        series1 == series2,
        object1 == object2,
        date1 == date2,
        prefix1 == prefix2,
    ensures
        file_name_spec(series1, object1) == file_name_spec(series2, object2),
        partition_path_spec(prefix1, date1, file_name_spec(series1, object1))
            == partition_path_spec(prefix2, date2, file_name_spec(series2, object2)),
{
}

} // verus!
