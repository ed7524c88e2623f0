use vstd::prelude::*;
use crate::error::ResizeError;
use crate::naming::{detect_format, extension, format_for, name_step, EntryName, Format};

verus! {

/// One file to resize: its place in the listing, the format to write it in,
/// and the path to write it to.
pub struct Job {
    pub index: usize,
    pub format: Format,
    pub target: String,
}

/// The listed file at which the batch stops, and why.
#[derive(Clone, Copy, Debug, PartialEq, Eq, Structural)]
pub struct Failure {
    pub index: usize,
    pub error: ResizeError,
}

/// The work of one batch: the files to resize, in listing order, then the
/// failure that ends the batch after them, if any.
pub struct Plan {
    pub jobs: Vec<Job>,
    pub failure: Option<Failure>,
}

/// A job as plain values.
pub open spec fn job_view(j: Job) -> (usize, Format, Seq<char>) {
    (j.index, j.format, j.target@)
}

/// The jobs of a plan as plain values.
pub open spec fn jobs_view(jobs: Seq<Job>) -> Seq<(usize, Format, Seq<char>)> {
    jobs.map_values(|j: Job| job_view(j))
}

/// Where the resized copy of `name` goes: `{dest}/{name}`.
pub open spec fn target_path(dest: Seq<char>, name: Seq<char>) -> Seq<char> {
    dest + seq!['/'] + name
}

/// Whether none of the first `n` names stops the batch.
pub open spec fn all_accepted(names: Seq<EntryName>, n: int) -> bool {
    forall|j: int| 0 <= j < n ==> (#[trigger] name_step(names[j])) is Ok
}

/// The jobs for the first `n` names, one for each name with a supported
/// extension, in order.
pub open spec fn planned_jobs(names: Seq<EntryName>, dest: Seq<char>, n: int) -> Seq<
    (usize, Format, Seq<char>),
>
    decreases n,
{
    if n <= 0 {
        Seq::empty()
    } else {
        let prev = planned_jobs(names, dest, n - 1);
        match (name_step(names[n - 1]), names[n - 1]) {
            (Ok(Some(f)), EntryName::Text(s)) => prev.push(((n - 1) as usize, f, target_path(dest, s@))),
            _ => prev,
        }
    }
}

/// The stopping point of a plan: the index of its failure, or the number of names.
pub open spec fn stop_of(p: Plan, names: Seq<EntryName>) -> int {
    match p.failure {
        Some(f) => f.index as int,
        None => names.len() as int,
    }
}

/// Whether `p` is the plan of a batch over `names` that writes into `dest`:
/// every name up to the first one that fails is handled in order, and the
/// batch stops there.
pub open spec fn is_plan_of(p: Plan, names: Seq<EntryName>, dest: Seq<char>) -> bool {
    let stop = stop_of(p, names);
    &&& all_accepted(names, stop)
    &&& jobs_view(p.jobs@) == planned_jobs(names, dest, stop)
    &&& match p.failure {
        Some(f) => f.index < names.len() && name_step(names[f.index as int]) == Err::<
            Option<Format>,
            ResizeError,
        >(f.error),
        None => true,
    }
}

/// Plans the resizing of the listed files into `dest`, in order: a name without
/// a final component is skipped, a name ending in ".jpg" or ".png" becomes a
/// job that writes `{dest}/{name}` in that format, and the first other name
/// ends the batch with its error. Nothing after it is planned.
pub fn plan_resize(names: &Vec<EntryName>, dest: &str) -> (r: Plan)
    ensures
        is_plan_of(r, names@, dest@),
{
    let mut jobs: Vec<Job> = Vec::new();
    let mut i: usize = 0;
    while i < names.len()
        invariant
            i <= names@.len(),
            all_accepted(names@, i as int),
            jobs_view(jobs@) == planned_jobs(names@, dest@, i as int),
        decreases names@.len() - i,
    {
        let ghost before = jobs@;
        match detect_format(&names[i]) {
            Err(e) => {
                return Plan { jobs, failure: Some(Failure { index: i, error: e }) };
            },
            Ok(None) => {
                assert(planned_jobs(names@, dest@, i + 1) == planned_jobs(names@, dest@, i as int));
            },
            Ok(Some(format)) => {
                if let EntryName::Text(name) = &names[i] {
                    let mut target = String::from_str(dest);
                    proof {
                        reveal_strlit("/");
                    }
                    target.append("/");
                    target.append(name.as_str());
                    assert(target@ == target_path(dest@, name@));
                    jobs.push(Job { index: i, format, target });
                    assert(planned_jobs(names@, dest@, i + 1) == planned_jobs(
                        names@,
                        dest@,
                        i as int,
                    ).push((i, format, target_path(dest@, name@))));
                    assert(jobs_view(jobs@) =~= jobs_view(before).push(job_view(jobs@.last())));
                }
            },
        }
        i = i + 1;
    }
    Plan { jobs, failure: None }
}

/// A name with no extension, or with one other than "jpg" and "png", stops the
/// batch with `InvalidFormat` where every earlier name was accepted: the plan
/// fails at that name and holds no job for it or for any later name.
pub proof fn lemma_unsupported_stops(p: Plan, names: Seq<EntryName>, dest: Seq<char>, i: int)
    requires
        is_plan_of(p, names, dest),
        0 <= i < names.len() <= usize::MAX,
        all_accepted(names, i),
        names[i] matches EntryName::Text(s) && (extension(s@) matches Some(ext) ==> format_for(
            ext,
        ) is None),
    ensures
        p.failure == Some(Failure { index: i as usize, error: ResizeError::InvalidFormat }),
        forall|k: int| 0 <= k < p.jobs.len() ==> p.jobs[k].index < i,
{
    assert(name_step(names[i]) is Err);
    lemma_jobs_before(names, dest, i);
    match p.failure {
        Some(f) => {
            assert(name_step(names[f.index as int]) is Err);
            assert(f.index as int == i);
            assert forall|k: int| 0 <= k < p.jobs.len() implies p.jobs[k].index < i by {
                assert(jobs_view(p.jobs@)[k] == job_view(p.jobs[k]));
            }
        },
        None => {
            assert(name_step(names[i]) is Ok);
        },
    }
}

/// Planning is repeatable: two plans of the same names into the same
/// directory hold the same jobs, in the same order, and end the same way.
pub proof fn lemma_plan_repeatable(p: Plan, q: Plan, names: Seq<EntryName>, dest: Seq<char>)
    requires
        is_plan_of(p, names, dest),
        is_plan_of(q, names, dest),
    ensures
        p.failure == q.failure,
        jobs_view(p.jobs@) == jobs_view(q.jobs@),
{
    let sp = stop_of(p, names);
    let sq = stop_of(q, names);
    if sp < sq {
        assert(name_step(names[sp]) is Err);
        assert(name_step(names[sp]) is Ok);
    }
    if sq < sp {
        assert(name_step(names[sq]) is Err);
        assert(name_step(names[sq]) is Ok);
    }
    assert(sp == sq);
    match (p.failure, q.failure) {
        (Some(f), Some(g)) => {
            assert(Err::<Option<Format>, ResizeError>(f.error) == Err::<
                Option<Format>,
                ResizeError,
            >(g.error));
        },
        (Some(f), None) => {
            assert(name_step(names[f.index as int]) is Ok);
        },
        (None, Some(g)) => {
            assert(name_step(names[g.index as int]) is Ok);
        },
        (None, None) => {},
    }
}

/// Every job planned for the first `n` names belongs to one of them.
pub proof fn lemma_jobs_before(names: Seq<EntryName>, dest: Seq<char>, n: int)
    requires
        0 <= n <= names.len() <= usize::MAX,
    ensures
        forall|k: int|
            0 <= k < planned_jobs(names, dest, n).len() ==> (#[trigger] planned_jobs(
                names,
                dest,
                n,
            )[k]).0 < n,
    decreases n,
{
    if n > 0 {
        lemma_jobs_before(names, dest, n - 1);
        let prev = planned_jobs(names, dest, n - 1);
        assert forall|k: int| 0 <= k < planned_jobs(names, dest, n).len() implies (
        #[trigger] planned_jobs(names, dest, n)[k]).0 < n by {
            if k < prev.len() {
                assert(planned_jobs(names, dest, n)[k] == prev[k]);
            }
        }
    }
}

} // verus!
