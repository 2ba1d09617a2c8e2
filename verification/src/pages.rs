//! Classifier for one raw Ogg container page.
//!
//! A page carries its segment-table length at byte offset 26; the table
//! occupies `[27, 27 + segments)` and the payload begins right after it.
//! A page is a header page exactly when the eight payload bytes there spell
//! `OpusHead` or `OpusTags`; any other well-formed page is a data page, and
//! a buffer too short to hold the preamble, table and marker is malformed.

use vstd::prelude::*;

verus! {

/// The marker that opens an Opus identification header: the bytes of `OpusHead`.
pub open spec fn opus_head_marker() -> Seq<u8> {
    seq![79u8, 112u8, 117u8, 115u8, 72u8, 101u8, 97u8, 100u8]
}

/// The marker that opens an Opus comment header: the bytes of `OpusTags`.
pub open spec fn opus_tags_marker() -> Seq<u8> {
    seq![79u8, 112u8, 117u8, 115u8, 84u8, 97u8, 103u8, 115u8]
}

/// Offset of the first payload byte: the preamble plus the declared segment table.
pub open spec fn payload_offset(data: Seq<u8>) -> int
    recommends
        data.len() > 26,
{
    27 + data[26] as int
}

/// The buffer is long enough to hold the preamble, the declared segment table,
/// and an eight-byte marker after it.
pub open spec fn page_well_formed(data: Seq<u8>) -> bool {
    data.len() > 26 && data.len() >= payload_offset(data) + 8
}

/// The eight payload bytes of the page.
pub open spec fn page_marker(data: Seq<u8>) -> Seq<u8>
    recommends
        page_well_formed(data),
{
    data.subrange(payload_offset(data), payload_offset(data) + 8)
}

/// A well-formed page whose payload opens with the identification marker.
pub open spec fn is_head_page(data: Seq<u8>) -> bool {
    page_well_formed(data) && page_marker(data) == opus_head_marker()
}

/// A well-formed page whose payload opens with the comment marker.
pub open spec fn is_tags_page(data: Seq<u8>) -> bool {
    page_well_formed(data) && page_marker(data) == opus_tags_marker()
}

/// A header page: one that a decoder needs before any data page.
pub open spec fn is_header_page(data: Seq<u8>) -> bool {
    is_head_page(data) || is_tags_page(data)
}

/// A well-formed page that carries audio data rather than headers.
pub open spec fn is_data_page(data: Seq<u8>) -> bool {
    page_well_formed(data) && !is_header_page(data)
}

/// What the classifier says of one well-formed page.
#[derive(Clone, Copy, Debug, PartialEq, Eq, Structural)]
pub enum PageClass {
    Header,
    Data,
}

/// True exactly when the eight bytes of `data` at `off` spell `OpusHead`.
fn marker_is_head(data: &Vec<u8>, off: usize) -> (r: bool)
    requires
        off + 8 <= data@.len(),
    ensures
        r == (data@.subrange(off as int, off as int + 8) == opus_head_marker()),
{
    // binding the length brings its usize bound into scope for the index sums
    let _n: usize = data.len();
    let r = data[off] == 79 && data[off + 1] == 112 && data[off + 2] == 117 && data[off + 3] == 115
        && data[off + 4] == 72 && data[off + 5] == 101 && data[off + 6] == 97 && data[off + 7]
        == 100;
    proof {
        let s = data@.subrange(off as int, off as int + 8);
        if r {
            assert(s =~= opus_head_marker());
        } else {
            assert(s != opus_head_marker()) by {
                if s == opus_head_marker() {
                    assert(data@[off as int] == s[0]);
                    assert(data@[off + 1] == s[1]);
                    assert(data@[off + 2] == s[2]);
                    assert(data@[off + 3] == s[3]);
                    assert(data@[off + 4] == s[4]);
                    assert(data@[off + 5] == s[5]);
                    assert(data@[off + 6] == s[6]);
                    assert(data@[off + 7] == s[7]);
                }
            }
        }
    }
    r
}

/// True exactly when the eight bytes of `data` at `off` spell `OpusTags`.
fn marker_is_tags(data: &Vec<u8>, off: usize) -> (r: bool)
    requires
        off + 8 <= data@.len(),
    ensures
        r == (data@.subrange(off as int, off as int + 8) == opus_tags_marker()),
{
    // binding the length brings its usize bound into scope for the index sums
    let _n: usize = data.len();
    let r = data[off] == 79 && data[off + 1] == 112 && data[off + 2] == 117 && data[off + 3] == 115
        && data[off + 4] == 84 && data[off + 5] == 97 && data[off + 6] == 103 && data[off + 7]
        == 115;
    proof {
        let s = data@.subrange(off as int, off as int + 8);
        if r {
            assert(s =~= opus_tags_marker());
        } else {
            assert(s != opus_tags_marker()) by {
                if s == opus_tags_marker() {
                    assert(data@[off as int] == s[0]);
                    assert(data@[off + 1] == s[1]);
                    assert(data@[off + 2] == s[2]);
                    assert(data@[off + 3] == s[3]);
                    assert(data@[off + 4] == s[4]);
                    assert(data@[off + 5] == s[5]);
                    assert(data@[off + 6] == s[6]);
                    assert(data@[off + 7] == s[7]);
                }
            }
        }
    }
    r
}

/// Classify one raw page: `Header` or `Data` for a well-formed buffer, and an
/// error — never a panic — for one too short to hold its declared table and
/// the eight-byte marker.
pub fn classify_page(data: &Vec<u8>) -> (r: Result<PageClass, ()>)
    ensures
        r == Ok::<PageClass, ()>(PageClass::Header) <==> is_header_page(data@),
        r == Ok::<PageClass, ()>(PageClass::Data) <==> is_data_page(data@),
        r is Err <==> !page_well_formed(data@),
{
    if data.len() < 27 {
        return Err(());
    }
    let segments = data[26] as usize;
    let off = 27 + segments;
    if data.len() < off + 8 {
        return Err(());
    }
    if marker_is_head(data, off) || marker_is_tags(data, off) {
        Ok(PageClass::Header)
    } else {
        Ok(PageClass::Data)
    }
}

/// Accept exactly a well-formed page marked `OpusHead`, handing the buffer back.
pub fn validate_header(data: Vec<u8>) -> (r: Result<Option<Vec<u8>>, ()>)
    ensures
        r matches Ok(o) ==> o matches Some(v) && v@ == data@,
        r is Ok <==> is_head_page(data@),
{
    if data.len() < 27 {
        return Err(());
    }
    let segments = data[26] as usize;
    let off = 27 + segments;
    if data.len() < off + 8 {
        return Err(());
    }
    if marker_is_head(&data, off) {
        Ok(Some(data))
    } else {
        Err(())
    }
}

/// Accept exactly a well-formed page marked `OpusTags`, handing the buffer back.
pub fn validate_tags(data: Vec<u8>) -> (r: Result<Option<Vec<u8>>, ()>)
    ensures
        r matches Ok(o) ==> o matches Some(v) && v@ == data@,
        r is Ok <==> is_tags_page(data@),
{
    if data.len() < 27 {
        return Err(());
    }
    let segments = data[26] as usize;
    let off = 27 + segments;
    if data.len() < off + 8 {
        return Err(());
    }
    if marker_is_tags(&data, off) {
        Ok(Some(data))
    } else {
        Err(())
    }
}

/// Accept exactly a header page — `OpusHead` or `OpusTags` — handing back a
/// borrow of the buffer.
pub fn validate_bos_and_tags(data: &Vec<u8>) -> (r: Result<&Vec<u8>, ()>)
    ensures
        r matches Ok(v) ==> v@ == data@,
        r is Ok <==> is_header_page(data@),
{
    if data.len() < 27 {
        return Err(());
    }
    let segments = data[26] as usize;
    let off = 27 + segments;
    if data.len() < off + 8 {
        return Err(());
    }
    if marker_is_head(data, off) || marker_is_tags(data, off) {
        Ok(data)
    } else {
        Err(())
    }
}

} // verus!
