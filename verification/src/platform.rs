//! Which platforms a library applies to.
//!
//! Two stages, in this order. First the rules: every `disallow` rule removes
//! the platform it names; any other rule changes nothing. Then the path: if
//! it names exactly one platform, only that platform may stay. The second
//! stage only narrows, so a platform that a rule removed never comes back.

use crate::text::{contains, contains_text, same_text};
use crate::types::{MojangLibraryRule, OsType};
use vstd::prelude::*;

verus! {

/// The text in a path that names a platform.
pub open spec fn platform_token(os: OsType) -> Seq<char> {
    match os {
        OsType::Windows => "windows"@,
        OsType::Linux => "linux"@,
        OsType::MacOs => "macos"@,
    }
}

/// Whether the rule removes the platform it names.
pub open spec fn is_disallow(rule: MojangLibraryRule) -> bool {
    rule.action@ == "disallow"@
}

/// Whether some rule removes `os`.
pub open spec fn disallowed(rules: Seq<MojangLibraryRule>, os: OsType) -> bool {
    exists|i: int|
        0 <= i < rules.len() && is_disallow(#[trigger] rules[i]) && rules[i].os.name == os
}

/// Whether the path names `os` and neither of the other two platforms.
pub open spec fn names_only(path: Seq<char>, os: OsType) -> bool {
    &&& contains(path, platform_token(os))
    &&& forall|other: OsType| other != os ==> !contains(path, platform_token(other))
}

/// Whether the path names exactly one platform.
pub open spec fn names_one(path: Seq<char>) -> bool {
    exists|os: OsType| names_only(path, os)
}

/// Whether the path lets `os` stay: it does unless the path names exactly
/// one platform and that is another one.
pub open spec fn path_admits(path: Seq<char>, os: OsType) -> bool {
    names_one(path) ==> names_only(path, os)
}

/// Whether a library with this path and these rules applies to `os`.
pub open spec fn applies_to(path: Seq<char>, rules: Seq<MojangLibraryRule>, os: OsType) -> bool {
    !disallowed(rules, os) && path_admits(path, os)
}

/// The set of platforms that a library applies to. It may be empty.
pub open spec fn platform_set(path: Seq<char>, rules: Seq<MojangLibraryRule>) -> Set<OsType> {
    Set::new(|os: OsType| applies_to(path, rules, os))
}

/// `os` alone if the library applies to it, nothing otherwise.
pub open spec fn kept(path: Seq<char>, rules: Seq<MojangLibraryRule>, os: OsType) -> Seq<OsType> {
    if applies_to(path, rules, os) {
        seq![os]
    } else {
        Seq::<OsType>::empty()
    }
}

/// The platforms that a library applies to, as a list without repetition in
/// the fixed order Windows, Linux, MacOs.
pub open spec fn platforms(path: Seq<char>, rules: Seq<MojangLibraryRule>) -> Seq<OsType> {
    kept(path, rules, OsType::Windows) + kept(path, rules, OsType::Linux) + kept(
        path,
        rules,
        OsType::MacOs,
    )
}

/// All three platforms, in the fixed order.
pub open spec fn all_platforms() -> Seq<OsType> {
    seq![OsType::Windows, OsType::Linux, OsType::MacOs]
}

/// The list `platforms` holds exactly the members of `platform_set`, each
/// once.
pub proof fn lemma_platforms_list_is_set(path: Seq<char>, rules: Seq<MojangLibraryRule>)
    ensures
        platforms(path, rules).to_set() == platform_set(path, rules),
        platforms(path, rules).no_duplicates(),
{
    let list = platforms(path, rules);
    let w = kept(path, rules, OsType::Windows);
    let l = kept(path, rules, OsType::Linux);
    let m = kept(path, rules, OsType::MacOs);
    assert forall|os: OsType| list.contains(os) <==> applies_to(path, rules, os) by {
        if applies_to(path, rules, os) {
            match os {
                OsType::Windows => {
                    assert(list[0] == os);
                },
                OsType::Linux => {
                    assert(list[w.len() as int] == os);
                },
                OsType::MacOs => {
                    assert(list[(w.len() + l.len()) as int] == os);
                },
            }
        }
        if list.contains(os) {
            let i = choose|i: int| 0 <= i < list.len() && list[i] == os;
            assert(list[i] == os);
        }
    }
    assert(list.to_set() =~= platform_set(path, rules));
}

/// With no rule that disallows and no platform named in the path, a library
/// applies to all three platforms.
pub proof fn lemma_unrestricted_is_universal(path: Seq<char>, rules: Seq<MojangLibraryRule>)
    requires
        forall|os: OsType| !disallowed(rules, os),
        forall|os: OsType| !contains(path, platform_token(os)),
    ensures
        platforms(path, rules) == all_platforms(),
{
    assert(!names_one(path));
    assert(platforms(path, rules) =~= all_platforms());
}

/// A platform that a rule disallows is never in the result, whatever the
/// path names.
pub proof fn lemma_disallowed_stays_out(
    path: Seq<char>,
    rules: Seq<MojangLibraryRule>,
    os: OsType,
)
    requires
        disallowed(rules, os),
    ensures
        !platform_set(path, rules).contains(os),
        !platforms(path, rules).contains(os),
{
    lemma_platforms_list_is_set(path, rules);
    assert(!platforms(path, rules).to_set().contains(os));
}

/// A path that names exactly one platform leaves at most that platform.
pub proof fn lemma_named_platform_narrows(
    path: Seq<char>,
    rules: Seq<MojangLibraryRule>,
    only: OsType,
)
    requires
        names_only(path, only),
    ensures
        platform_set(path, rules).subset_of(set![only]),
        platform_set(path, rules).contains(only) <==> !disallowed(rules, only),
{
    assert(names_one(path));
    assert forall|os: OsType| platform_set(path, rules).contains(os) implies os == only by {
        if os != only {
            assert(!contains(path, platform_token(only)) || !names_only(path, os));
        }
    }
}

/// Whether some rule in `rules` disallows `os`.
fn is_disallowed(rules: &Vec<MojangLibraryRule>, os: OsType) -> (found: bool)
    ensures
        found == disallowed(rules@, os),
{
    let mut i: usize = 0;
    while i < rules.len()
        invariant
            i <= rules.len(),
            forall|k: int|
                0 <= k < i ==> !(is_disallow(#[trigger] rules@[k]) && rules@[k].os.name == os),
        decreases rules.len() - i,
    {
        if same_text(rules[i].action.as_str(), "disallow") && rules[i].os.name == os {
            return true;
        }
        i += 1;
    }
    false
}

/// The platforms that a library with path `candidate_path` and rules `rules`
/// applies to: all three, less those that a rule disallows, less all but the
/// one that the path names if it names exactly one.
pub fn resolve_platforms(candidate_path: &str, rules: &Vec<MojangLibraryRule>) -> (out: Vec<
    OsType,
>)
    ensures
        out@ == platforms(candidate_path@, rules@),
{
    let windows = contains_text(candidate_path, "windows");
    let linux = contains_text(candidate_path, "linux");
    let macos = contains_text(candidate_path, "macos");
    let only_windows = windows && !linux && !macos;
    let only_linux = linux && !windows && !macos;
    let only_macos = macos && !windows && !linux;
    let one = only_windows || only_linux || only_macos;
    proof {
        let path = candidate_path@;
        assert(windows == contains(path, platform_token(OsType::Windows)));
        assert(linux == contains(path, platform_token(OsType::Linux)));
        assert(macos == contains(path, platform_token(OsType::MacOs)));
        assert(only_windows == names_only(path, OsType::Windows)) by {
            if only_windows {
                assert forall|other: OsType| other != OsType::Windows implies !contains(
                    path,
                    platform_token(other),
                ) by {
                    match other {
                        OsType::Windows => {},
                        OsType::Linux => {},
                        OsType::MacOs => {},
                    }
                }
            } else if windows {
                assert(OsType::Linux != OsType::Windows && OsType::MacOs != OsType::Windows);
            }
        }
        assert(only_linux == names_only(path, OsType::Linux)) by {
            if only_linux {
                assert forall|other: OsType| other != OsType::Linux implies !contains(
                    path,
                    platform_token(other),
                ) by {
                    match other {
                        OsType::Windows => {},
                        OsType::Linux => {},
                        OsType::MacOs => {},
                    }
                }
            } else if linux {
                assert(OsType::Windows != OsType::Linux && OsType::MacOs != OsType::Linux);
            }
        }
        assert(only_macos == names_only(path, OsType::MacOs)) by {
            if only_macos {
                assert forall|other: OsType| other != OsType::MacOs implies !contains(
                    path,
                    platform_token(other),
                ) by {
                    match other {
                        OsType::Windows => {},
                        OsType::Linux => {},
                        OsType::MacOs => {},
                    }
                }
            } else if macos {
                assert(OsType::Windows != OsType::MacOs && OsType::Linux != OsType::MacOs);
            }
        }
        assert(one == names_one(path)) by {
            if names_one(path) {
                let os = choose|os: OsType| names_only(path, os);
                match os {
                    OsType::Windows => {},
                    OsType::Linux => {},
                    OsType::MacOs => {},
                }
            }
        }
    }
    let mut out: Vec<OsType> = Vec::new();
    if !is_disallowed(rules, OsType::Windows) && (!one || only_windows) {
        out.push(OsType::Windows);
    }
    if !is_disallowed(rules, OsType::Linux) && (!one || only_linux) {
        out.push(OsType::Linux);
    }
    if !is_disallowed(rules, OsType::MacOs) && (!one || only_macos) {
        out.push(OsType::MacOs);
    }
    proof {
        assert(out@ =~= platforms(candidate_path@, rules@));
    }
    out
}

/// All three platforms, in the fixed order.
pub fn universal_platforms() -> (out: Vec<OsType>)
    ensures
        out@ == all_platforms(),
{
    let mut out: Vec<OsType> = Vec::new();
    out.push(OsType::Windows);
    out.push(OsType::Linux);
    out.push(OsType::MacOs);
    proof {
        assert(out@ =~= all_platforms());
    }
    out
}

} // verus!
