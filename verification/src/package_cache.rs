use vstd::prelude::*;

use vstd::string::StringExecFns;

use crate::data::Package;

verus! {

broadcast use vstd::seq_lib::group_filter_ensures;

/// The directory the tool keeps its per-package output caches in.
const CHECK_CACHE_DIR: &'static str = ".check-cache";

/// Whether `packages` lists `package`.
fn contains_package(packages: &Vec<Package>, package: Package) -> (found: bool)
    ensures
        found == packages@.contains(package),
{
    let mut i: usize = 0;
    while i < packages.len()
        invariant
            i <= packages@.len(),
            forall|k: int| 0 <= k < i ==> packages@[k] != package,
        decreases packages@.len() - i,
    {
        if packages[i] == package {
            return true;
        }
        i += 1;
    }
    false
}

/// Determines which packages need to be rechecked.
///
/// With `no_cache` the caller ignores previous outputs, so exactly the
/// requested packages are checked. Otherwise a requested package is checked
/// only when its cache is stale: `invalid_caches` lists the packages whose
/// cache does not exist or was invalidated by a dependency changing, as the
/// caller determined from the file system.
pub fn packages_to_check(
    args_packages: &Vec<Package>,
    invalid_caches: &Vec<Package>,
    no_cache: bool,
) -> (to_check: Vec<Package>)
    ensures
        no_cache ==> to_check@ == args_packages@,
        !no_cache ==> to_check@ == Package::spec_all_packages().filter(
            |package: Package|
                args_packages@.contains(package) && invalid_caches@.contains(package),
        ),
{
    let mut to_check: Vec<Package> = Vec::new();

    if no_cache {
        let mut i: usize = 0;
        while i < args_packages.len()
            invariant
                i <= args_packages@.len(),
                to_check@ == args_packages@.take(i as int),
            decreases args_packages@.len() - i,
        {
            to_check.push(args_packages[i]);
            proof {
                assert(to_check@ =~= args_packages@.take(i + 1));
            }
            i += 1;
        }
        proof {
            assert(args_packages@.take(args_packages@.len() as int) =~= args_packages@);
        }
    } else {
        let ghost pred = |package: Package|
            args_packages@.contains(package) && invalid_caches@.contains(package);
        let all_packages = Package::all_packages();
        let mut i: usize = 0;
        while i < all_packages.len()
            invariant
                i <= all_packages@.len(),
                all_packages@ == Package::spec_all_packages(),
                to_check@ == all_packages@.take(i as int).filter(pred),
                pred == (|package: Package|
                    args_packages@.contains(package) && invalid_caches@.contains(package)),
            decreases all_packages@.len() - i,
        {
            let package = all_packages[i];
            let ghost prev = all_packages@.take(i as int);
            if contains_package(args_packages, package) && contains_package(
                invalid_caches,
                package,
            ) {
                to_check.push(package);
                proof {
                    assert(to_check@ == prev.filter(pred).push(package));
                }
            }
            proof {
                prev.lemma_filter_push(package, pred);
                assert(all_packages@.take(i + 1) =~= prev.push(package));
            }
            i += 1;
        }
        proof {
            assert(all_packages@.take(all_packages@.len() as int) =~= all_packages@);
        }
    }

    to_check
}

/// Determines which packages' cached outputs should be printed: the
/// requested packages that were not checked afresh on this run. With
/// `no_cache` nothing cached is printed.
pub fn packages_to_print(
    args_packages: &Vec<Package>,
    checked_packages: &Vec<Package>,
    no_cache: bool,
) -> (to_print: Vec<Package>)
    ensures
        no_cache ==> to_print@ == Seq::<Package>::empty(),
        !no_cache ==> to_print@ == args_packages@.filter(
            |package: Package| !checked_packages@.contains(package),
        ),
{
    let mut to_print: Vec<Package> = Vec::new();

    if no_cache {
        proof {
            assert(to_print@ =~= Seq::<Package>::empty());
        }
    } else {
        let ghost pred = |package: Package| !checked_packages@.contains(package);
        let mut i: usize = 0;
        while i < args_packages.len()
            invariant
                i <= args_packages@.len(),
                to_print@ == args_packages@.take(i as int).filter(pred),
                pred == (|package: Package| !checked_packages@.contains(package)),
            decreases args_packages@.len() - i,
        {
            let package = args_packages[i];
            let ghost prev = args_packages@.take(i as int);
            if !contains_package(checked_packages, package) {
                to_print.push(package);
                proof {
                    assert(to_print@ == prev.filter(pred).push(package));
                }
            }
            proof {
                prev.lemma_filter_push(package, pred);
                assert(args_packages@.take(i + 1) =~= prev.push(package));
            }
            i += 1;
        }
        proof {
            assert(args_packages@.take(args_packages@.len() as int) =~= args_packages@);
        }
    }

    to_print
}

/// The path of the cache file for the given package and output format,
/// relative to the directory the tool runs in: message-format-JSON output
/// and plain (ANSI) output are cached separately.
pub fn package_cache_path(package: Package, msg_fmt_json: bool) -> (path: String)
    ensures
        msg_fmt_json ==> path@ == ".check-cache/"@ + package.spec_package_name()
            + ".msg-fmt-json"@,
        !msg_fmt_json ==> path@ == ".check-cache/"@ + package.spec_package_name() + ".ansi"@,
{
    let mut path: String = CHECK_CACHE_DIR.to_owned();
    path.append("/");
    path.append(package.package_name());
    if msg_fmt_json {
        path.append(".msg-fmt-json");
    } else {
        path.append(".ansi");
    }
    proof {
        reveal_strlit(".check-cache");
        reveal_strlit(".check-cache/");
        reveal_strlit("/");
        assert(".check-cache"@ + "/"@ =~= ".check-cache/"@);
    }
    path
}

} // verus!
