//! What holds of the bounded buffers.

use vstd::prelude::*;
use vstd::utf8::{encode_utf8, is_ascii_chars_encode_utf8};

use crate::bytes::{law_lines_read_apart, law_text_read_back, text_of, LINE_FEED};
use crate::capture::{
    stderr_kept, stdout_kept, MAX_STDERR_BYTES, MAX_STDOUT_BYTES, STDERR_TRUNCATION_MARKER,
    STDOUT_TRUNCATION_MARKER,
};
use crate::output::{json_result, law_chatter_excluded};
use crate::text::{blank, law_final_line};

verus! {

broadcast use vstd::string::group_string_axioms;

/// Standard output that fits is handed on as it is. Of more, the last bytes are handed
/// on behind the marker, and no more than the marker is added to the bound.
pub proof fn law_stdout_keeps_the_end(written: Seq<u8>)
    ensures
        written.len() <= MAX_STDOUT_BYTES ==> stdout_kept(written) == written,
        written.len() > MAX_STDOUT_BYTES ==> {
            let marker = encode_utf8(STDOUT_TRUNCATION_MARKER@);
            &&& stdout_kept(written).len() == marker.len() + MAX_STDOUT_BYTES
            &&& stdout_kept(written).take(marker.len() as int) == marker
            &&& stdout_kept(written).skip(marker.len() as int) == written.skip(
                written.len() - MAX_STDOUT_BYTES,
            )
        },
{
    let marker = encode_utf8(STDOUT_TRUNCATION_MARKER@);
    if written.len() > MAX_STDOUT_BYTES {
        let kept = stdout_kept(written);
        assert(kept.take(marker.len() as int) =~= marker);
        assert(kept.skip(marker.len() as int) =~= written.skip(written.len() - MAX_STDOUT_BYTES));
    }
}

/// Standard error that fits is handed on as it is. Of more, the text of the first bytes
/// is handed on, and the marker behind it.
pub proof fn law_stderr_keeps_the_start(written: Seq<u8>)
    ensures
        written.len() <= MAX_STDERR_BYTES ==> stderr_kept(written) == text_of(written),
        written.len() > MAX_STDERR_BYTES ==> stderr_kept(written) == text_of(
            written.take(MAX_STDERR_BYTES as int),
        ) + STDERR_TRUNCATION_MARKER@,
{
}

/// The marker of dropped output is a line by itself.
proof fn lemma_marker_ends_its_line() -> (start: Seq<u8>)
    ensures
        encode_utf8(STDOUT_TRUNCATION_MARKER@) == start.push(LINE_FEED),
{
    reveal_strlit(
        "[truncated at 8 MiB: output prefix dropped; retained tail begins below]\n",
    );
    let marker = STDOUT_TRUNCATION_MARKER@;
    is_ascii_chars_encode_utf8(marker);
    let bytes = encode_utf8(marker);
    assert(bytes.len() == marker.len());
    assert(bytes[bytes.len() - 1] == LINE_FEED);
    assert(bytes =~= bytes.drop_last().push(LINE_FEED));
    bytes.drop_last()
}

/// A result that stands on the final line of standard output is found however much was
/// written above it, and whatever that was: dropping the beginning of the output does
/// not touch it as long as the line itself fits.
pub proof fn law_result_survives_truncation(
    key: Seq<char>,
    above: Seq<u8>,
    line: Seq<char>,
    tail: Seq<char>,
)
    requires
        forall|i: int| 0 <= i < line.len() ==> #[trigger] line[i] != '\n',
        !blank(line),
        blank(tail),
        encode_utf8(line + tail).len() <= MAX_STDOUT_BYTES,
    ensures
        json_result(text_of(stdout_kept(encode_utf8(line + tail))), key) == json_result(line, key),
        json_result(
            text_of(stdout_kept(above + seq![LINE_FEED] + encode_utf8(line + tail))),
            key,
        ) == json_result(line, key),
{
    let end = encode_utf8(line + tail);
    let written = above + seq![LINE_FEED] + end;
    let kept = stdout_kept(written);
    law_text_read_back(line + tail);
    law_final_line(Seq::empty(), line, tail);
    law_final_line(Seq::empty(), line, Seq::empty());
    assert(line + Seq::<char>::empty() =~= line);
    let start = lemma_marker_ends_its_line();
    let before = if written.len() <= MAX_STDOUT_BYTES {
        above
    } else if end.len() == MAX_STDOUT_BYTES {
        start
    } else {
        start.push(LINE_FEED) + above.skip(written.len() - MAX_STDOUT_BYTES)
    };
    assert(kept =~= before + seq![LINE_FEED] + end);
    law_lines_read_apart(before, end);
    law_chatter_excluded(key, text_of(before), line, tail);
}

/// The bounds and the marks of dropped output: the last eight mebibytes of standard output
/// are kept, the first one of standard error, and a line tells where something is missing.
pub proof fn law_bounds_of_output()
    ensures
        MAX_STDOUT_BYTES == 8_388_608,
        MAX_STDERR_BYTES == 1_048_576,
        STDOUT_TRUNCATION_MARKER@
            == "[truncated at 8 MiB: output prefix dropped; retained tail begins below]\n"@,
        STDERR_TRUNCATION_MARKER@ == "\n[truncated at 1 MiB]"@,
{
}

} // verus!
