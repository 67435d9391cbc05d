//! The model-download protocol: stream to a temporary file, rename into
//! place on completion. The arithmetic of progress reporting runs here; the
//! ghost model shows the final file never exists partially and appears with
//! exactly the bytes that were served.

use vstd::prelude::*;

verus! {

/// Download progress in whole percent; zero while the total is unknown.
pub open spec fn progress_percent_spec(downloaded: u64, total: u64) -> int {
    if total > 0 {
        if downloaded * 100 / (total as int) <= u64::MAX {
            downloaded * 100 / (total as int)
        } else {
            u64::MAX as int
        }
    } else {
        0
    }
}

/// The percentage reported for one progress callback.
pub fn progress_percent(downloaded: u64, total: u64) -> (r: u64)
    ensures
        r == progress_percent_spec(downloaded, total),
        downloaded <= total ==> r <= 100,
{
    if total > 0 {
        let wide: u128 = (downloaded as u128) * 100 / (total as u128);
        proof {
            if downloaded <= total {
                assert(downloaded * 100 <= (total as int) * 100) by (nonlinear_arith)
                    requires
                        downloaded <= total,
                ;
                vstd::arithmetic::div_mod::lemma_div_is_ordered(
                    downloaded * 100,
                    (total as int) * 100,
                    total as int,
                );
                assert((total as int) * 100 == 100 * (total as int)) by (nonlinear_arith);
                vstd::arithmetic::div_mod::lemma_div_by_multiple(100, total as int);
            }
        }
        if wide > u64::MAX as u128 {
            u64::MAX
        } else {
            wide as u64
        }
    } else {
        0
    }
}

/// Reported progress never decreases as bytes accumulate.
pub proof fn lemma_progress_monotonic(d1: u64, d2: u64, total: u64)
    requires
        d1 <= d2,
    ensures
        progress_percent_spec(d1, total) <= progress_percent_spec(d2, total),
{
    if total > 0 {
        assert(d1 * 100 <= d2 * 100) by (nonlinear_arith)
            requires
                d1 <= d2,
        ;
        vstd::arithmetic::div_mod::lemma_div_is_ordered(d1 * 100, d2 * 100, total as int);
        assert(d1 * 100 / (total as int) <= d2 * 100 / (total as int));
    }
}

/// Byte counter for one download in flight.
pub struct DownloadTracker {
    downloaded: u64,
    total: u64,
}

impl DownloadTracker {
    pub closed spec fn spec_downloaded(&self) -> u64 {
        self.downloaded
    }

    pub closed spec fn spec_total(&self) -> u64 {
        self.total
    }

    /// Start counting against the advertised content length (zero when the
    /// server did not advertise one).
    pub fn new(total: u64) -> (r: Self)
        ensures
            r.spec_downloaded() == 0,
            r.spec_total() == total,
    {
        DownloadTracker { downloaded: 0, total }
    }

    /// Account one received chunk; the byte count only ever grows.
    pub fn on_chunk(&mut self, chunk_len: u64)
        requires
            old(self).spec_downloaded() + chunk_len <= u64::MAX,
        ensures
            final(self).spec_downloaded() == old(self).spec_downloaded() + chunk_len,
            final(self).spec_downloaded() >= old(self).spec_downloaded(),
            final(self).spec_total() == old(self).spec_total(),
    {
        self.downloaded = self.downloaded + chunk_len;
    }

    pub fn downloaded(&self) -> (r: u64)
        ensures
            r == self.spec_downloaded(),
    {
        self.downloaded
    }

    pub fn total(&self) -> (r: u64)
        ensures
            r == self.spec_total(),
    {
        self.total
    }

    /// The percentage to report for the current byte count.
    pub fn percent(&self) -> (r: u64)
        ensures
            r == progress_percent_spec(self.spec_downloaded(), self.spec_total()),
    {
        progress_percent(self.downloaded, self.total)
    }
}

// --- Ghost model of the files on disk during one download ---

/// What is on disk for one model while a download runs: the temporary file,
/// if any, and the final file, if any.
pub struct ModelFiles {
    pub tmp: Option<Seq<u8>>,
    pub published: Option<Seq<u8>>,
}

/// The only observation the rest of the system makes: whether the final
/// file exists.
pub open spec fn is_present_spec(m: ModelFiles) -> bool {
    m.published is Some
}

/// The steps the download protocol performs on disk.
pub enum DownloadStep {
    /// Create (or truncate) the temporary file.
    CreateTmp,
    /// Append one received chunk to the temporary file.
    WriteChunk(Seq<u8>),
    /// Atomically rename the temporary file into place.
    Rename,
    /// Any failure: the temporary file is left behind for inspection.
    Fail,
}

/// How each protocol step changes the disk. The final file is written by
/// `Rename` alone, and by nothing else.
pub open spec fn download_step_spec(m: ModelFiles, e: DownloadStep) -> ModelFiles {
    match e {
        DownloadStep::CreateTmp => ModelFiles { tmp: Some(Seq::empty()), published: m.published },
        DownloadStep::WriteChunk(b) => match m.tmp {
            Some(t) => ModelFiles { tmp: Some(t + b), published: m.published },
            None => m,
        },
        DownloadStep::Rename => match m.tmp {
            Some(t) => ModelFiles { tmp: None, published: Some(t) },
            None => m,
        },
        DownloadStep::Fail => m,
    }
}

/// All served chunks, in order, as one byte string.
pub open spec fn flatten_chunks_spec(chunks: Seq<Seq<u8>>) -> Seq<u8>
    decreases chunks.len(),
{
    if chunks.len() == 0 {
        Seq::empty()
    } else {
        flatten_chunks_spec(chunks.drop_last()) + chunks.last()
    }
}

/// The disk state after the temporary file has received the first `k`
/// chunks: the final file is still exactly what it was.
pub open spec fn mid_download_spec(start: ModelFiles, chunks: Seq<Seq<u8>>, k: int) -> ModelFiles {
    ModelFiles { tmp: Some(flatten_chunks_spec(chunks.take(k))), published: start.published }
}

proof fn lemma_chunks_accumulate(start: ModelFiles, chunks: Seq<Seq<u8>>, k: int)
    requires
        0 <= k <= chunks.len(),
    ensures
        mid_download_spec(start, chunks, k) == run_chunks_spec(
            download_step_spec(start, DownloadStep::CreateTmp),
            chunks.take(k),
        ),
    decreases k,
{
    if k == 0 {
        assert(chunks.take(0) =~= Seq::<Seq<u8>>::empty());
    } else {
        lemma_chunks_accumulate(start, chunks, k - 1);
        assert(chunks.take(k).drop_last() =~= chunks.take(k - 1));
    }
}

/// The disk state after writing a whole chunk sequence to the open
/// temporary file.
pub open spec fn run_chunks_spec(m: ModelFiles, chunks: Seq<Seq<u8>>) -> ModelFiles
    decreases chunks.len(),
{
    if chunks.len() == 0 {
        m
    } else {
        download_step_spec(
            run_chunks_spec(m, chunks.drop_last()),
            DownloadStep::WriteChunk(chunks.last()),
        )
    }
}

/// The final file never goes away, and never changes, whatever protocol
/// step runs: presence is monotonic.
pub proof fn lemma_present_is_stable(m: ModelFiles, e: DownloadStep)
    requires
        !(e is Rename),
    ensures
        download_step_spec(m, e).published == m.published,
        is_present_spec(m) ==> is_present_spec(download_step_spec(m, e)),
{
}

/// One complete, successful download from an absent final file: while the
/// chunks stream in the final file stays absent (no partial file is ever
/// observable), and the rename publishes exactly the served bytes, making
/// `is_present` flip from false to true.
pub proof fn lemma_download_protocol(start: ModelFiles, chunks: Seq<Seq<u8>>)
    requires
        start.published is None,
    ensures
        forall|k: int|
            0 <= k <= chunks.len() ==> !is_present_spec(
                #[trigger] run_chunks_spec(
                    download_step_spec(start, DownloadStep::CreateTmp),
                    chunks.take(k),
                ),
            ),
        is_present_spec(
            download_step_spec(
                run_chunks_spec(download_step_spec(start, DownloadStep::CreateTmp), chunks),
                DownloadStep::Rename,
            ),
        ),
        download_step_spec(
            run_chunks_spec(download_step_spec(start, DownloadStep::CreateTmp), chunks),
            DownloadStep::Rename,
        ).published == Some(flatten_chunks_spec(chunks)),
{
    assert forall|k: int|
        0 <= k <= chunks.len() implies !is_present_spec(
        #[trigger] run_chunks_spec(
            download_step_spec(start, DownloadStep::CreateTmp),
            chunks.take(k),
        ),
    ) by {
        lemma_chunks_accumulate(start, chunks, k);
    }
    lemma_chunks_accumulate(start, chunks, chunks.len() as int);
    assert(chunks.take(chunks.len() as int) =~= chunks);
}

} // verus!
