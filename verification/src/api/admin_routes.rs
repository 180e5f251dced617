//! The admin handlers: the size limit of an uploaded movie body.

use crate::api::{reply, Reply};
use vstd::prelude::*;

verus! {

/// The largest upload body accepted, in bytes: 256 KiB.
pub const MAX_SIZE: u64 = 262144;

/// Admits the next chunk of an upload whose body holds `body_len` bytes so
/// far: the new body length, or the 400 reply `overflow` when the body would
/// grow past `MAX_SIZE`.
pub fn upload_movie(body_len: u64, chunk_len: u64) -> (r: Result<u64, Reply>)
    ensures
        body_len + chunk_len <= MAX_SIZE ==> r == Ok::<u64, Reply>((body_len + chunk_len) as u64),
        body_len + chunk_len > MAX_SIZE ==> (r matches Err(e) && e.status == 400 && e.body@
            == "overflow"@),
        r is Ok <==> body_len + chunk_len <= 262144,
{
    if body_len > MAX_SIZE || chunk_len > MAX_SIZE - body_len {
        Err(reply(400, "overflow"))
    } else {
        Ok(body_len + chunk_len)
    }
}

/// However the chunks come, a body built only from admitted chunks, starting
/// empty, never holds more than `MAX_SIZE` bytes.
pub proof fn upload_stays_bounded(lens: Seq<u64>, chunks: Seq<u64>)
    requires
        lens.len() == chunks.len() + 1,
        lens[0] == 0,
        forall|i: int|
            0 <= i < chunks.len() ==> lens[i] + chunks[i] <= MAX_SIZE && #[trigger] lens[i + 1]
                == lens[i] + chunks[i],
    ensures
        forall|i: int| 0 <= i < lens.len() ==> #[trigger] lens[i] <= MAX_SIZE,
{
    assert forall|i: int| 0 <= i < lens.len() implies #[trigger] lens[i] <= MAX_SIZE by {
        if i > 0 {
            assert(lens[(i - 1) + 1] == lens[i - 1] + chunks[i - 1]);
        }
    }
}

} // verus!
