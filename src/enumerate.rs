use vstd::prelude::*;

verus! {

/// The text of an optional string.
pub open spec fn text_of(s: Option<&str>) -> Option<Seq<char>> {
    match s {
        Some(t) => Some(t@),
        None => None,
    }
}

/// Whether the listing keeps an entry: its name could be read, and it is not
/// the excluded name.
pub open spec fn kept(entry: Option<String>, exclude: Option<Seq<char>>) -> bool {
    match entry {
        None => false,
        Some(name) => match exclude {
            None => true,
            Some(e) => name@ != e,
        },
    }
}

/// The indices, in increasing order, of the kept entries among the first `n`.
pub open spec fn kept_indices(entries: Seq<Option<String>>, exclude: Option<Seq<char>>, n: int) -> Seq<
    usize,
>
    decreases n,
{
    if n <= 0 {
        Seq::empty()
    } else {
        let prev = kept_indices(entries, exclude, n - 1);
        if kept(entries[n - 1], exclude) {
            prev.push((n - 1) as usize)
        } else {
            prev
        }
    }
}

/// Picks the entries of a directory listing that the resize pipeline works on.
/// `entries` holds, in listing order, each entry's file name, or `None` where
/// the entry or its name could not be read; those are dropped without error,
/// and so is every entry whose name is exactly `exclude`. The result holds the
/// indices of the remaining entries, in listing order.
pub fn get_file_paths(entries: &Vec<Option<String>>, exclude: Option<&str>) -> (r: Vec<usize>)
    ensures
        r@ == kept_indices(entries@, text_of(exclude), entries@.len() as int),
{
    let excluded: Option<String> = match exclude {
        Some(e) => Some(String::from_str(e)),
        None => None,
    };
    let ghost ex = text_of(exclude);
    let mut r: Vec<usize> = Vec::new();
    let mut i: usize = 0;
    while i < entries.len()
        invariant
            i <= entries@.len(),
            ex == text_of(exclude),
            match excluded {
                Some(e) => ex == Some(e@),
                None => ex is None,
            },
            r@ == kept_indices(entries@, ex, i as int),
        decreases entries@.len() - i,
    {
        let keep = match &entries[i] {
            None => false,
            Some(name) => match &excluded {
                None => true,
                Some(e) => !(*name == *e),
            },
        };
        if keep {
            r.push(i);
        }
        i = i + 1;
    }
    r
}

/// The listing never yields the excluded name, and yields every other entry
/// whose name could be read exactly once, in listing order.
pub proof fn lemma_listing_exact(entries: Seq<Option<String>>, exclude: Option<Seq<char>>, n: int)
    requires
        0 <= n <= entries.len() <= usize::MAX,
    ensures
        ({
            let r = kept_indices(entries, exclude, n);
            &&& forall|k: int|
                0 <= k < r.len() ==> r[k] < n && entries[r[k] as int] is Some && (exclude
                    matches Some(e) ==> entries[r[k] as int]->Some_0@ != e)
            &&& forall|j: int, k: int| 0 <= j < k < r.len() ==> r[j] < r[k]
            &&& forall|i: int|
                0 <= i < n && kept(#[trigger] entries[i], exclude) ==> exists|k: int|
                    0 <= k < r.len() && r[k] == i
        }),
    decreases n,
{
    if n > 0 {
        lemma_listing_exact(entries, exclude, n - 1);
        let prev = kept_indices(entries, exclude, n - 1);
        let r = kept_indices(entries, exclude, n);
        assert forall|i: int|
            0 <= i < n && kept(#[trigger] entries[i], exclude) implies exists|k: int|
                0 <= k < r.len() && r[k] == i by {
            if i < n - 1 {
                let k = choose|k: int| 0 <= k < prev.len() && prev[k] == i;
                assert(r[k] == i);
            } else {
                assert(r[r.len() - 1] == i);
            }
        }
    }
}

} // verus!
