//! The public Invidious instances and the rotation between them.
use vstd::prelude::*;
use crate::text::{chars_eq, chars_of, strip_trailing, strip_trailing_char};

verus! {

/// The instances, in the order in which they are tried.
pub open spec fn instance_list() -> Seq<Seq<char>> {
    seq![
        "https://invidious.flokinet.to"@,
        "https://invidious.privacydev.net"@,
        "https://yt.artemislena.eu"@,
        "https://iv.melmac.space"@,
        "https://invidious.namazso.eu"@,
        "https://inv.riverside.rocks"@,
        "https://invidious.kavin.rocks"@,
    ]
}

/// The public Invidious instances.
pub fn instances() -> (r: Vec<&'static str>)
    ensures
        r@.len() == instance_list().len(),
        forall|i: int| 0 <= i < r@.len() ==> #[trigger] r@[i]@ == instance_list()[i],
{
    let r = vec![
        "https://invidious.flokinet.to",
        "https://invidious.privacydev.net",
        "https://yt.artemislena.eu",
        "https://iv.melmac.space",
        "https://invidious.namazso.eu",
        "https://inv.riverside.rocks",
        "https://invidious.kavin.rocks",
    ];
    assert(r@.len() == 7);
    r
}

/// `i` is the first instance that equals `current` once trailing slashes
/// are dropped from both.
pub open spec fn first_matching(current: Seq<char>, i: int) -> bool {
    &&& 0 <= i < instance_list().len()
    &&& strip_trailing(instance_list()[i], '/') == strip_trailing(current, '/')
    &&& forall|j: int|
        0 <= j < i ==> strip_trailing(instance_list()[j], '/') != strip_trailing(current, '/')
}

/// The index of the instance after `current`: the one after the first
/// instance that `current` names, or the second when it names none.
pub open spec fn next_index(current: Seq<char>) -> int {
    if exists|i: int| first_matching(current, i) {
        ((choose|i: int| first_matching(current, i)) + 1) % instance_list().len() as int
    } else {
        1
    }
}

proof fn lemma_first_matching_unique(current: Seq<char>, i: int, k: int)
    requires
        first_matching(current, i),
        first_matching(current, k),
    ensures
        i == k,
{
    if i < k {
        assert(strip_trailing(instance_list()[i], '/') != strip_trailing(current, '/'));
    } else if k < i {
        assert(strip_trailing(instance_list()[k], '/') != strip_trailing(current, '/'));
    }
}

/// Round-robin to the instance after `current`, with no network access.
pub fn next_instance(current: &str) -> (r: &'static str)
    ensures
        r@ == instance_list()[next_index(current@)],
{
    let list = instances();
    let cur_chars = chars_of(current);
    let cur = strip_trailing_char(&cur_chars, '/');
    let mut i: usize = 0;
    while i < list.len()
        invariant
            list@.len() == instance_list().len(),
            forall|k: int| 0 <= k < list@.len() ==> #[trigger] list@[k]@ == instance_list()[k],
            cur@ == strip_trailing(current@, '/'),
            i <= list@.len(),
            forall|j: int|
                0 <= j < i ==> strip_trailing(instance_list()[j], '/') != strip_trailing(current@, '/'),
        decreases list@.len() - i,
    {
        let inst = chars_of(list[i]);
        let inst_stripped = strip_trailing_char(&inst, '/');
        if chars_eq(&inst_stripped, &cur) {
            assert(first_matching(current@, i as int));
            proof {
                let k = choose|k: int| first_matching(current@, k);
                lemma_first_matching_unique(current@, i as int, k);
            }
            return list[(i + 1) % list.len()];
        }
        i = i + 1;
    }
    assert(!exists|k: int| first_matching(current@, k));
    list[1]
}

/// No instance ends with a slash, and no two instances are the same.
proof fn lemma_instances_plain()
    ensures
        forall|i: int|
            0 <= i < instance_list().len() ==> #[trigger] strip_trailing(instance_list()[i], '/')
                == instance_list()[i],
        forall|i: int, j: int|
            0 <= i < instance_list().len() && 0 <= j < instance_list().len() && i != j
                ==> instance_list()[i] != instance_list()[j],
{
    reveal_strlit("https://invidious.flokinet.to");
    reveal_strlit("https://invidious.privacydev.net");
    reveal_strlit("https://yt.artemislena.eu");
    reveal_strlit("https://iv.melmac.space");
    reveal_strlit("https://invidious.namazso.eu");
    reveal_strlit("https://inv.riverside.rocks");
    reveal_strlit("https://invidious.kavin.rocks");
    let l = instance_list();
    assert forall|i: int| 0 <= i < l.len() implies #[trigger] strip_trailing(l[i], '/') == l[i] by {
        assert(l[i].len() > 0 && l[i].last() != '/');
    }
    assert forall|i: int, j: int| 0 <= i < l.len() && 0 <= j < l.len() && i != j implies l[i] != l[j] by {
        if (i == 0 && j == 6) || (i == 6 && j == 0) {
            assert(l[i][18] != l[j][18]);
        } else {
            assert(l[i].len() != l[j].len());
        }
    }
}

/// The rotation moves from each instance to the one after it in the list,
/// and from the last to the first.
pub proof fn law_next_instance_rotates(i: int)
    requires
        0 <= i < instance_list().len(),
    ensures
        next_index(instance_list()[i]) == (i + 1) % (instance_list().len() as int),
{
    lemma_instances_plain();
    let cur = instance_list()[i];
    assert(strip_trailing(instance_list()[i], '/') == cur);
    assert forall|j: int| 0 <= j < i implies strip_trailing(instance_list()[j], '/') != strip_trailing(
        cur,
        '/',
    ) by {
        assert(strip_trailing(instance_list()[j], '/') == instance_list()[j]);
    }
    assert(first_matching(cur, i));
    let k = choose|k: int| first_matching(cur, k);
    lemma_first_matching_unique(cur, i, k);
}

/// The instance reached from `current` after `n` steps of the rotation.
pub open spec fn rotated(current: Seq<char>, n: nat) -> Seq<char>
    decreases n,
{
    if n == 0 {
        current
    } else {
        instance_list()[next_index(rotated(current, (n - 1) as nat))]
    }
}

/// Starting from instance `k`, the `n`-th step of the rotation reaches
/// instance `(k + n) % 7`: retries go round the whole list.
pub proof fn law_rotation_goes_round(k: int, n: nat)
    requires
        0 <= k < instance_list().len(),
    ensures
        rotated(instance_list()[k], n) == instance_list()[(k + n) % (instance_list().len() as int)],
    decreases n,
{
    if n == 0 {
        assert(k % 7 == k);
    } else {
        law_rotation_goes_round(k, (n - 1) as nat);
        let m = (k + n - 1) % 7;
        law_next_instance_rotates(m);
        assert((m + 1) % 7 == (k + n) % 7);
    }
}

/// Within one round, every step of the rotation reaches another instance:
/// the retries of a request never try an instance twice.
pub proof fn law_rotation_never_repeats(k: int, a: nat, b: nat)
    requires
        0 <= k < instance_list().len(),
        a < b < instance_list().len(),
    ensures
        rotated(instance_list()[k], a) != rotated(instance_list()[k], b),
{
    law_rotation_goes_round(k, a);
    law_rotation_goes_round(k, b);
    lemma_instances_plain();
    assert((k + a) % 7 != (k + b) % 7);
}

/// The decision of a health probe run over the instances in order, given
/// the answers of the probes made so far (`true` for an instance that
/// answered with success): the first instance that answered, the first
/// instance when every one has been probed and none answered, and `None`
/// while the next instance, `probed.len()`, is still to be probed.
pub open spec fn health_choice(probed: Seq<bool>) -> Option<Seq<char>> {
    if exists|i: int| 0 <= i < probed.len() && i < instance_list().len() && probed[i] {
        let i = choose|i: int|
            0 <= i < probed.len() && i < instance_list().len() && probed[i] && forall|j: int|
                0 <= j < i ==> !probed[j];
        Some(instance_list()[i])
    } else if probed.len() >= instance_list().len() {
        Some(instance_list()[0])
    } else {
        None
    }
}

/// The step function of the health probe (see `health_choice`).
pub fn rotate_to_healthy_invidious(probed: &[bool]) -> (r: Option<&'static str>)
    ensures
        r matches Some(s) ==> health_choice(probed@) == Some(s@),
        r is None ==> health_choice(probed@) is None,
{
    let list = instances();
    let mut i: usize = 0;
    while i < probed.len() && i < list.len()
        invariant
            list@.len() == instance_list().len(),
            forall|k: int| 0 <= k < list@.len() ==> #[trigger] list@[k]@ == instance_list()[k],
            i <= probed@.len(),
            i <= list@.len(),
            forall|j: int| 0 <= j < i ==> !probed@[j],
        decreases probed@.len() - i,
    {
        if probed[i] {
            proof {
                let c = choose|k: int|
                    0 <= k < probed@.len() && k < instance_list().len() && probed@[k] && forall|j: int|
                        0 <= j < k ==> !probed@[j];
                assert(0 <= i < probed@.len() && i < instance_list().len() && probed@[i as int]
                    && forall|j: int| 0 <= j < i ==> !probed@[j]);
                if c < i {
                    assert(!probed@[c]);
                } else if c > i {
                    assert(!probed@[i as int]);
                }
            }
            return Some(list[i]);
        }
        i = i + 1;
    }
    assert(!exists|k: int| 0 <= k < probed@.len() && k < instance_list().len() && probed@[k]) by {
        assert forall|k: int| 0 <= k < probed@.len() && k < instance_list().len() implies !probed@[k] by {
            assert(k < i);
        }
    }
    if probed.len() >= list.len() {
        Some(list[0])
    } else {
        None
    }
}

} // verus!
