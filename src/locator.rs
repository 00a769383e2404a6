use vstd::prelude::*;

verus! {

/// The device nodes of the driver, most likely first.
pub open spec fn candidate_paths() -> Seq<Seq<char>> {
    seq![
        "/dev/kgsl-3d0"@,
        "/dev/kgsl/kgsl-3d0"@,
        "/dev/kgsl-3d1"@,
        "/dev/kgsl-2d0"@,
        "/dev/kgsl-2d1"@,
    ]
}

/// The paths among the first `n` whose flag is set, in their original order.
pub open spec fn existing_prefix(paths: Seq<Seq<char>>, flags: Seq<bool>, n: int) -> Seq<Seq<char>>
    decreases n,
{
    if n <= 0 {
        Seq::empty()
    } else {
        let before = existing_prefix(paths, flags, n - 1);
        if flags[n - 1] {
            before.push(paths[n - 1])
        } else {
            before
        }
    }
}

/// The paths whose flag is set, in their original order.
pub open spec fn existing(paths: Seq<Seq<char>>, flags: Seq<bool>) -> Seq<Seq<char>> {
    existing_prefix(paths, flags, paths.len() as int)
}

pub open spec fn strings_view(v: Seq<String>) -> Seq<Seq<char>> {
    v.map_values(|s: String| s@)
}

/// Relies on std::path::Path::exists: whether a file system entry is at the path.
/// What it finds depends on the machine, so nothing is stated of it.
#[verifier::external_body]
fn path_exists(path: &str) -> (r: bool) {
    std::path::Path::new(path).exists()
}

/// The device nodes of the driver, most likely first.
pub fn kgsl_candidate_paths() -> (r: Vec<String>)
    ensures
        strings_view(r@) == candidate_paths(),
{
    let mut r: Vec<String> = Vec::new();
    r.push("/dev/kgsl-3d0".to_owned());
    r.push("/dev/kgsl/kgsl-3d0".to_owned());
    r.push("/dev/kgsl-3d1".to_owned());
    r.push("/dev/kgsl-2d0".to_owned());
    r.push("/dev/kgsl-2d1".to_owned());
    assert(strings_view(r@) =~= candidate_paths());
    r
}

/// Keeps the paths whose existence flag is set, in their original order.
pub fn select_existing(paths: &Vec<String>, exists: &Vec<bool>) -> (r: Vec<String>)
    requires
        paths@.len() == exists@.len(),
    ensures
        strings_view(r@) == existing(strings_view(paths@), exists@),
{
    let mut r: Vec<String> = Vec::new();
    let mut i: usize = 0;
    while i < paths.len()
        invariant
            i <= paths@.len(),
            paths@.len() == exists@.len(),
            strings_view(r@) == existing_prefix(strings_view(paths@), exists@, i as int),
        decreases paths@.len() - i,
    {
        if exists[i] {
            let p = paths[i].clone();
            r.push(p);
            assert(strings_view(r@) =~= existing_prefix(
                strings_view(paths@),
                exists@,
                i as int,
            ).push(paths@[i as int]@));
        }
        i = i + 1;
    }
    r
}

/// The driver's device nodes that exist now, in order of likelihood; empty when
/// there are none.
pub fn find_kgsl_devices() -> (r: Vec<String>)
    ensures
        exists|flags: Seq<bool>|
            flags.len() == candidate_paths().len() && strings_view(r@) == existing(
                candidate_paths(),
                flags,
            ),
{
    let paths = kgsl_candidate_paths();
    let mut flags: Vec<bool> = Vec::new();
    let mut i: usize = 0;
    while i < paths.len()
        invariant
            i <= paths@.len(),
            flags@.len() == i,
        decreases paths@.len() - i,
    {
        flags.push(path_exists(paths[i].as_str()));
        i = i + 1;
    }
    let r = select_existing(&paths, &flags);
    assert(flags@.len() == candidate_paths().len());
    r
}

/// Locating keeps only paths that exist, in their candidate order, and finds
/// nothing, with no error, when no path exists.
pub proof fn lemma_existing_in_order(paths: Seq<Seq<char>>, flags: Seq<bool>, n: int)
    requires
        0 <= n <= paths.len(),
        flags.len() == paths.len(),
    ensures
        forall|k: int|
            0 <= k < existing_prefix(paths, flags, n).len() ==> exists|j: int|
                0 <= j < n && flags[j] && #[trigger] existing_prefix(paths, flags, n)[k]
                    == paths[j],
        existing_prefix(paths, flags, n).len() <= n,
        (forall|j: int| 0 <= j < n ==> !flags[j]) ==> existing_prefix(paths, flags, n).len() == 0,
        (forall|j: int| 0 <= j < n ==> flags[j]) ==> existing_prefix(paths, flags, n)
            == paths.take(n),
    decreases n,
{
    if n > 0 {
        lemma_existing_in_order(paths, flags, n - 1);
        let before = existing_prefix(paths, flags, n - 1);
        let now = existing_prefix(paths, flags, n);
        assert forall|k: int| 0 <= k < now.len() implies exists|j: int|
            0 <= j < n && flags[j] && #[trigger] now[k] == paths[j] by {
            if k < before.len() {
                assert(now[k] == before[k]);
                let j = choose|j: int| 0 <= j < n - 1 && flags[j] && before[k] == paths[j];
                assert(0 <= j < n && flags[j] && now[k] == paths[j]);
            } else {
                assert(now[k] == paths[n - 1]);
            }
        }
        if forall|j: int| 0 <= j < n ==> flags[j] {
            assert(paths.take(n) =~= paths.take(n - 1).push(paths[n - 1]));
        }
    } else {
        assert(paths.take(0) =~= Seq::<Seq<char>>::empty());
    }
}

} // verus!
