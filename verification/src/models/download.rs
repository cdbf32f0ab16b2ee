//! The bookkeeping of model downloads: the progress record of each job, the
//! percentage shown, when a streamed download reports progress, and which
//! earlier job answers a new request. Fetching bytes and writing the file are
//! the caller's part. Percentages are in hundredths of a percent.
use vstd::prelude::*;
use super::types::{CatalogModel, DownloadProgress, DownloadStatus, InstalledModel, ModelLibraryResponse, QuantizationOption};
use super::recommend::{library_for, marked, resolve_selection, selection};
use crate::hardware::types::HardwareProfile;
use super::catalog::{catalog_len, catalog_name, catalog_position, find_catalog_model};
use crate::text::same_text;

verus! {

/// The share of `total` that `bytes` make, in hundredths of a percent,
/// rounded down and at most 100 %; 0 for an empty total.
pub open spec fn percent_spec(bytes: u64, total: u64) -> u32 {
    if total == 0 {
        0
    } else if bytes >= total {
        10000
    } else {
        ((bytes * 10000) / (total as int)) as u32
    }
}

/// The percentage never exceeds 100 %, is 100 % once the total has arrived,
/// and never falls as more bytes arrive.
pub proof fn law_percent_bounded_monotone(a: u64, b: u64, total: u64)
    requires
        a <= b,
    ensures
        percent_spec(a, total) <= 10000,
        total > 0 && a >= total ==> percent_spec(a, total) == 10000,
        percent_spec(a, total) <= percent_spec(b, total),
{
    if total > 0 && a < total {
        let qa = (a * 10000) / (total as int);
        assert(0 <= qa < 10000) by (nonlinear_arith)
            requires
                qa == (a * 10000) / (total as int),
                a < total,
                total > 0,
                a >= 0,
        ;
        if b < total {
            let qb = (b * 10000) / (total as int);
            assert(qa <= qb) by (nonlinear_arith)
                requires
                    qa == (a * 10000) / (total as int),
                    qb == (b * 10000) / (total as int),
                    a <= b,
                    total > 0,
                    a >= 0,
            ;
            assert(0 <= qb < 10000) by (nonlinear_arith)
                requires
                    qb == (b * 10000) / (total as int),
                    b < total,
                    total > 0,
                    b >= 0,
            ;
        }
    }
}

/// The progress percentage, in hundredths of a percent: none when the total
/// is unknown.
pub fn compute_percent(bytes_downloaded: u64, total_bytes: Option<u64>) -> (r: Option<u32>)
    ensures
        r == match total_bytes {
            Some(t) => Some(percent_spec(bytes_downloaded, t)),
            None => None,
        },
{
    match total_bytes {
        None => None,
        Some(total) => {
            if total == 0 {
                Some(0)
            } else if bytes_downloaded >= total {
                Some(10000)
            } else {
                let scaled: u128 = (bytes_downloaded as u128) * 10000;
                let q: u128 = scaled / (total as u128);
                assert(q < 10000) by (nonlinear_arith)
                    requires
                        q == scaled / (total as u128),
                        scaled == bytes_downloaded * 10000,
                        bytes_downloaded < total,
                        total > 0,
                ;
                Some(q as u32)
            }
        },
    }
}

/// A field-by-field copy of a progress record.
pub fn copy_progress(p: &DownloadProgress) -> (r: DownloadProgress)
    ensures
        r == *p,
{
    DownloadProgress {
        model_id: p.model_id.clone(),
        quantization_id: p.quantization_id.clone(),
        status: p.status,
        bytes_downloaded: p.bytes_downloaded,
        total_bytes: p.total_bytes,
        progress_basis_points: p.progress_basis_points,
        file_path: match &p.file_path {
            Some(f) => Some(f.clone()),
            None => None,
        },
        error: match &p.error {
            Some(e) => Some(e.clone()),
            None => None,
        },
    }
}

/// The progress recorded last under `model_id` in `jobs`.
pub open spec fn job_in(jobs: Seq<(String, DownloadProgress)>, model_id: Seq<char>) -> Option<DownloadProgress>
    decreases jobs.len(),
{
    if jobs.len() == 0 {
        None
    } else if jobs.last().0@ == model_id {
        Some(jobs.last().1)
    } else {
        job_in(jobs.drop_last(), model_id)
    }
}

/// `jobs` without the entries of `model_id`, in order.
pub open spec fn without_job(jobs: Seq<(String, DownloadProgress)>, model_id: Seq<char>) -> Seq<
    (String, DownloadProgress),
>
    decreases jobs.len(),
{
    if jobs.len() == 0 {
        seq![]
    } else {
        let prev = without_job(jobs.drop_last(), model_id);
        if jobs.last().0@ == model_id {
            prev
        } else {
            prev.push(jobs.last())
        }
    }
}

/// Dropping the entries of one id leaves what every other id holds.
pub proof fn lemma_without_job(jobs: Seq<(String, DownloadProgress)>, model_id: Seq<char>, other: Seq<char>)
    requires
        other != model_id,
    ensures
        job_in(without_job(jobs, model_id), other) == job_in(jobs, other),
        job_in(without_job(jobs, model_id), model_id) is None,
    decreases jobs.len(),
{
    if jobs.len() > 0 {
        lemma_without_job(jobs.drop_last(), model_id, other);
        let prev = without_job(jobs.drop_last(), model_id);
        if jobs.last().0@ != model_id {
            assert(prev.push(jobs.last()).drop_last() == prev);
        }
    }
}

/// The download jobs of this session: the last progress of each model.
pub struct DownloadState {
    jobs: Vec<(String, DownloadProgress)>,
}

impl DownloadState {
    /// The progress recorded for `model_id`, if any.
    pub closed spec fn job(&self, model_id: Seq<char>) -> Option<DownloadProgress> {
        job_in(self.jobs@, model_id)
    }

    /// No job recorded.
    pub fn new() -> (s: Self)
        ensures
            forall|id: Seq<char>| #[trigger] s.job(id) is None,
    {
        DownloadState { jobs: Vec::new() }
    }

    /// The progress of the job for `model_id`, if one was recorded.
    pub fn snapshot(&self, model_id: &str) -> (r: Option<DownloadProgress>)
        ensures
            r == self.job(model_id@),
    {
        let mut i = self.jobs.len();
        assert(self.jobs@.take(i as int) == self.jobs@);
        while i > 0
            invariant
                i <= self.jobs@.len(),
                job_in(self.jobs@, model_id@) == job_in(self.jobs@.take(i as int), model_id@),
            decreases i,
        {
            let k = i - 1;
            proof {
                assert(self.jobs@.take(i as int).last() == self.jobs@[k as int]);
                assert(self.jobs@.take(i as int).drop_last() == self.jobs@.take(k as int));
            }
            if same_text(&self.jobs[k].0, model_id) {
                return Some(copy_progress(&self.jobs[k].1));
            }
            i = k;
        }
        None
    }

    /// Records `progress` as the job of `model_id`, replacing any earlier one.
    pub fn set(&mut self, model_id: &str, progress: DownloadProgress)
        ensures
            final(self).job(model_id@) == Some(progress),
            forall|other: Seq<char>| other != model_id@ ==> #[trigger] final(self).job(other) == old(self).job(other),
    {
        let mut kept: Vec<(String, DownloadProgress)> = Vec::new();
        let mut i: usize = 0;
        while i < self.jobs.len()
            invariant
                i <= self.jobs@.len(),
                kept@ == without_job(self.jobs@.take(i as int), model_id@),
            decreases self.jobs@.len() - i,
        {
            proof {
                assert(self.jobs@.take(i + 1).drop_last() == self.jobs@.take(i as int));
                assert(self.jobs@.take(i + 1).last() == self.jobs@[i as int]);
            }
            if !same_text(&self.jobs[i].0, model_id) {
                kept.push((self.jobs[i].0.clone(), copy_progress(&self.jobs[i].1)));
            }
            i = i + 1;
        }
        assert(self.jobs@.take(self.jobs@.len() as int) == self.jobs@);
        let ghost before = self.jobs@;
        let ghost kept_view = kept@;
        kept.push((String::from_str(model_id), progress));
        self.jobs = kept;
        proof {
            assert(self.jobs@.drop_last() == kept_view);
            assert forall|other: Seq<char>| other != model_id@ implies #[trigger] job_in(self.jobs@, other)
                == job_in(before, other) by {
                lemma_without_job(before, model_id@, other);
            }
        }
    }
}

/// The earlier job that answers a new request for the same model: one
/// already under way or finished; any other earlier job does not.
pub open spec fn reusable(existing: Option<DownloadProgress>) -> Option<DownloadProgress> {
    match existing {
        Some(e) => if e.status == DownloadStatus::Downloading || e.status == DownloadStatus::Completed {
            Some(e)
        } else {
            None
        },
        None => None,
    }
}

/// A job already under way or finished answers a new request for the same
/// model; any other earlier job does not.
pub fn reuse_existing(existing: Option<DownloadProgress>) -> (r: Option<DownloadProgress>)
    ensures
        r == reusable(existing),
{
    match existing {
        Some(e) => {
            if e.status == DownloadStatus::Downloading || e.status == DownloadStatus::Completed {
                Some(e)
            } else {
                None
            }
        },
        None => None,
    }
}

/// How a download request starts: answered by an earlier job, refused with
/// the reason, or the model and quantization to fetch.
pub enum DownloadStart {
    Reuse(DownloadProgress),
    Refused(String),
    Selected(CatalogModel, QuantizationOption),
}

/// The first step of a download request for `model_id` in `quantization_id`
/// on `profile`, given the job recorded for the model: an earlier job under
/// way or finished answers it; otherwise the selection from the library for
/// `profile` (its default marked) decides, as `resolve_selection` does.
pub fn begin_download(
    existing: Option<DownloadProgress>,
    model_id: &str,
    quantization_id: &str,
    profile: &HardwareProfile,
) -> (s: DownloadStart)
    ensures
        reusable(existing) matches Some(e) ==> s == DownloadStart::Reuse(e),
        reusable(existing) is None ==> exists|built: ModelLibraryResponse, with_default: ModelLibraryResponse|
            library_for(*profile, Seq::empty(), built) && marked(built, with_default) && match s {
                DownloadStart::Reuse(_) => false,
                DownloadStart::Refused(e) => selection(with_default, model_id@, quantization_id@, Err(e)),
                DownloadStart::Selected(m, q) => selection(with_default, model_id@, quantization_id@, Ok((m, q))),
            },
{
    if let Some(e) = reuse_existing(existing) {
        return DownloadStart::Reuse(e);
    }
    match resolve_selection(model_id, quantization_id, profile) {
        Ok((m, q)) => DownloadStart::Selected(m, q),
        Err(e) => DownloadStart::Refused(e),
    }
}

/// What follows a fetch of `model_id` in `quantization_id`: registering the
/// file when it arrived, else the failed record (nothing received of
/// `total_bytes`) and the error to report.
pub enum FetchNext {
    Register,
    Failed(DownloadProgress, String),
}

/// The step after fetching a model file: register it on success; on an
/// error, record the failure and report the error.
pub fn after_fetch(model_id: &str, quantization_id: &str, total_bytes: u64, fetched: Result<(), String>) -> (n: FetchNext)
    ensures
        fetched is Ok ==> n == FetchNext::Register,
        fetched matches Err(err) ==> n matches FetchNext::Failed(p, e) && e == err && {
            &&& p.model_id@ == model_id@
            &&& p.quantization_id@ == quantization_id@
            &&& p.status == DownloadStatus::Failed
            &&& p.bytes_downloaded == 0
            &&& p.total_bytes == Some(total_bytes)
            &&& p.progress_basis_points is None
            &&& p.file_path is None
            &&& p.error matches Some(x) && x@ == err@
        },
{
    match fetched {
        Ok(()) => FetchNext::Register,
        Err(e) => {
            let p = failed_progress(model_id, quantization_id, total_bytes, e.as_str());
            FetchNext::Failed(p, e)
        },
    }
}

/// The record of a finished download of `installed`: all its bytes, 100 %,
/// and its path.
pub fn completed_progress(model_id: &str, quantization_id: &str, installed: &InstalledModel) -> (p: DownloadProgress)
    ensures
        p.model_id@ == model_id@,
        p.quantization_id@ == quantization_id@,
        p.status == DownloadStatus::Completed,
        p.bytes_downloaded == installed.file_size_bytes,
        p.total_bytes == Some(installed.file_size_bytes),
        p.progress_basis_points == Some(10000u32),
        p.file_path == Some(installed.file_path),
        p.error is None,
{
    DownloadProgress {
        model_id: String::from_str(model_id),
        quantization_id: String::from_str(quantization_id),
        status: DownloadStatus::Completed,
        bytes_downloaded: installed.file_size_bytes,
        total_bytes: Some(installed.file_size_bytes),
        progress_basis_points: Some(10000),
        file_path: Some(installed.file_path.clone()),
        error: None,
    }
}

/// The record of a download that has just started: nothing received yet of
/// the expected `total_bytes`.
pub fn initial_progress(model_id: &str, quantization_id: &str, total_bytes: u64) -> (p: DownloadProgress)
    ensures
        p.model_id@ == model_id@,
        p.quantization_id@ == quantization_id@,
        p.status == DownloadStatus::Downloading,
        p.bytes_downloaded == 0,
        p.total_bytes == Some(total_bytes),
        p.progress_basis_points == Some(0u32),
        p.file_path is None,
        p.error is None,
{
    DownloadProgress {
        model_id: String::from_str(model_id),
        quantization_id: String::from_str(quantization_id),
        status: DownloadStatus::Downloading,
        bytes_downloaded: 0,
        total_bytes: Some(total_bytes),
        progress_basis_points: Some(0),
        file_path: None,
        error: None,
    }
}

/// The record of a download that failed with `error`.
pub fn failed_progress(model_id: &str, quantization_id: &str, total_bytes: u64, error: &str) -> (p: DownloadProgress)
    ensures
        p.model_id@ == model_id@,
        p.quantization_id@ == quantization_id@,
        p.status == DownloadStatus::Failed,
        p.bytes_downloaded == 0,
        p.total_bytes == Some(total_bytes),
        p.progress_basis_points is None,
        p.file_path is None,
        p.error matches Some(e) && e@ == error@,
{
    DownloadProgress {
        model_id: String::from_str(model_id),
        quantization_id: String::from_str(quantization_id),
        status: DownloadStatus::Failed,
        bytes_downloaded: 0,
        total_bytes: Some(total_bytes),
        progress_basis_points: None,
        file_path: None,
        error: Some(String::from_str(error)),
    }
}

/// The record of a download under way: `bytes_downloaded` received of
/// `total_bytes`, with the percentage when the total is known.
pub fn streaming_progress(
    model_id: &str,
    quantization_id: &str,
    bytes_downloaded: u64,
    total_bytes: Option<u64>,
) -> (p: DownloadProgress)
    ensures
        p.model_id@ == model_id@,
        p.quantization_id@ == quantization_id@,
        p.status == DownloadStatus::Downloading,
        p.bytes_downloaded == bytes_downloaded,
        p.total_bytes == total_bytes,
        p.progress_basis_points == match total_bytes {
            Some(t) => Some(percent_spec(bytes_downloaded, t)),
            None => None,
        },
        p.file_path is None,
        p.error is None,
{
    DownloadProgress {
        model_id: String::from_str(model_id),
        quantization_id: String::from_str(quantization_id),
        status: DownloadStatus::Downloading,
        bytes_downloaded,
        total_bytes,
        progress_basis_points: compute_percent(bytes_downloaded, total_bytes),
        file_path: None,
        error: None,
    }
}

/// How many bytes a download receives between two progress reports, at
/// least: 512 KiB.
pub const EMIT_INTERVAL_BYTES: u64 = 524288;

/// Whether a streamed download reports progress now: more than 512 KiB came
/// since the last report, or the count has reached the total (0 when the
/// total is unknown).
pub fn should_emit(bytes_downloaded: u64, last_emit_bytes: u64, total_bytes: Option<u64>) -> (b: bool)
    requires
        last_emit_bytes <= bytes_downloaded,
    ensures
        b == (bytes_downloaded - last_emit_bytes > EMIT_INTERVAL_BYTES || bytes_downloaded == match total_bytes {
            Some(t) => t,
            None => 0,
        }),
{
    let total = match total_bytes {
        Some(t) => t,
        None => 0,
    };
    bytes_downloaded - last_emit_bytes > EMIT_INTERVAL_BYTES || bytes_downloaded == total
}

/// The name a failure message gives a model: its catalog name, or its id.
pub open spec fn display_name(model_id: Seq<char>) -> Seq<char> {
    if catalog_position(model_id) < catalog_len() {
        catalog_name(catalog_position(model_id))
    } else {
        model_id
    }
}

/// The message of a download refused by the server with `status`.
pub fn status_failure_message(status: &str, model_id: &str) -> (m: String)
    ensures
        m@ == "Download failed with status "@ + status@ + " for "@ + display_name(model_id@)
            + ". Check internet connectivity or try again."@,
{
    let mut m = String::from_str("Download failed with status ");
    m.append(status);
    m.append(" for ");
    match find_catalog_model(model_id) {
        Some(model) => m.append(model.name.as_str()),
        None => m.append(model_id),
    }
    m.append(". Check internet connectivity or try again.");
    m
}

/// The model a request names, or the first curated model when it names none.
pub fn requested_model_id(model_id: Option<String>) -> (r: String)
    ensures
        r@ == match model_id {
            Some(m) => m@,
            None => "llama-3.2-3b-instruct"@,
        },
{
    match model_id {
        Some(m) => m,
        None => String::from_str("llama-3.2-3b-instruct"),
    }
}

/// The quantization a request names, or `Q4_K_M` when it names none.
pub fn requested_quantization_id(quantization_id: Option<String>) -> (r: String)
    ensures
        r@ == match quantization_id {
            Some(q) => q@,
            None => "Q4_K_M"@,
        },
{
    match quantization_id {
        Some(q) => q,
        None => String::from_str("Q4_K_M"),
    }
}

} // verus!
