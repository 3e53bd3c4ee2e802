//! Location submissions: only map links of the known map services are
//! accepted.

use vstd::prelude::*;

use vstd::string::StrSliceExecFns;

verus! {

/// True when `p` stands at the front of `s`.
pub fn str_starts_with(s: &str, p: &str) -> (r: bool)
    ensures
        r == (p@.len() <= s@.len() && s@.subrange(0, p@.len() as int) == p@),
{
    let pn = p.unicode_len();
    let sn = s.unicode_len();
    if pn > sn {
        return false;
    }
    let mut i: usize = 0;
    while i < pn
        invariant
            pn == p@.len(),
            sn == s@.len(),
            pn <= sn,
            0 <= i <= pn,
            forall|k: int| 0 <= k < i ==> s@[k] == p@[k],
        decreases pn - i,
    {
        if s.get_char(i) != p.get_char(i) {
            proof {
                assert(s@.subrange(0, pn as int)[i as int] != p@[i as int]);
            }
            return false;
        }
        i = i + 1;
    }
    proof {
        assert(s@.subrange(0, pn as int) =~= p@);
    }
    true
}

pub open spec fn spec_link_prefix_ok(l: Seq<char>, p: Seq<char>) -> bool {
    p.len() <= l.len() && l.subrange(0, p.len() as int) == p
}

/// When a map link passes: absent, or pointing into one of the
/// accepted map services.
pub open spec fn spec_valid_map_link(link: Option<Seq<char>>) -> bool {
    match link {
        None => true,
        Some(l) => {
            ||| spec_link_prefix_ok(l, "https://2gis.ru/"@)
            ||| spec_link_prefix_ok(l, "https://yandex.ru/maps/"@)
            ||| spec_link_prefix_ok(l, "https://google.ru/maps/"@)
            ||| spec_link_prefix_ok(l, "https://www/google.ru/maps/"@)
            ||| spec_link_prefix_ok(l, "https://google.com/maps/"@)
            ||| spec_link_prefix_ok(l, "https://www/google.com/maps/"@)
        },
    }
}

/// Accepts a new location's map link.
pub fn validate_map_link(map_link: &Option<String>) -> (r: bool)
    ensures
        r == spec_valid_map_link(
            match map_link {
                Some(l) => Some(l@),
                None => None,
            },
        ),
{
    match map_link {
        None => true,
        Some(link) => {
            let l = link.as_str();
            str_starts_with(l, "https://2gis.ru/") || str_starts_with(l, "https://yandex.ru/maps/")
                || str_starts_with(l, "https://google.ru/maps/") || str_starts_with(
                l,
                "https://www/google.ru/maps/",
            ) || str_starts_with(l, "https://google.com/maps/") || str_starts_with(
                l,
                "https://www/google.com/maps/",
            )
        },
    }
}

} // verus!
