//! Choosing a physical device and its queue families.

use vstd::prelude::*;
use crate::surface::QueueFamilyIndices;

verus! {

pub const QUEUE_GRAPHICS: u32 = 0x1;
pub const QUEUE_COMPUTE: u32 = 0x2;
pub const QUEUE_TRANSFER: u32 = 0x4;

pub const DEVICE_TYPE_OTHER: i32 = 0;
pub const DEVICE_TYPE_INTEGRATED_GPU: i32 = 1;
pub const DEVICE_TYPE_DISCRETE_GPU: i32 = 2;
pub const DEVICE_TYPE_VIRTUAL_GPU: i32 = 3;
pub const DEVICE_TYPE_CPU: i32 = 4;

/// What is known of one queue family of a device.
#[derive(Debug, Copy, Clone, PartialEq, Eq, Structural)]
pub struct QueueFamily {
    /// What the queues of the family can do.
    pub queue_flags: u32,
    /// How many queues the family has.
    pub queue_count: u32,
    /// Whether the family can present to the surface; `None` when the
    /// device could not say.
    pub surface_support: Option<bool>,
}

/// What is known of one physical device.
pub struct DeviceInfo {
    pub device_type: i32,
    /// The names of the extensions that the device offers.
    pub extensions: Vec<Vec<u8>>,
    /// How many surface formats the device offers; `None` when it could
    /// not say.
    pub format_count: Option<usize>,
    /// How many present modes the device offers; `None` when it could not
    /// say.
    pub present_mode_count: Option<usize>,
    pub families: Vec<QueueFamily>,
}

/// How much a kind of device is preferred; more is better.
pub open spec fn spec_device_type_rank(ty: i32) -> u32 {
    if ty == DEVICE_TYPE_DISCRETE_GPU {
        4
    } else if ty == DEVICE_TYPE_INTEGRATED_GPU {
        3
    } else if ty == DEVICE_TYPE_CPU {
        2
    } else if ty == DEVICE_TYPE_VIRTUAL_GPU {
        1
    } else {
        0
    }
}

/// How much a kind of device is preferred; more is better.
pub fn device_type_rank(ty: i32) -> (r: u32)
    ensures
        r == spec_device_type_rank(ty),
{
    if ty == DEVICE_TYPE_DISCRETE_GPU {
        4
    } else if ty == DEVICE_TYPE_INTEGRATED_GPU {
        3
    } else if ty == DEVICE_TYPE_CPU {
        2
    } else if ty == DEVICE_TYPE_VIRTUAL_GPU {
        1
    } else {
        0
    }
}

/// Tests two names for equality.
pub fn same_name(a: &Vec<u8>, b: &Vec<u8>) -> (r: bool)
    ensures
        r == (a@ == b@),
{
    if a.len() != b.len() {
        return false;
    }
    let mut i: usize = 0;
    while i < a.len()
        invariant
            i <= a@.len(),
            a@.len() == b@.len(),
            forall|k: int| 0 <= k < i ==> a@[k] == b@[k],
        decreases a@.len() - i,
    {
        if a[i] != b[i] {
            return false;
        }
        i += 1;
    }
    proof {
        assert(a@ =~= b@);
    }
    true
}

/// Whether `name` is among the first `n` of `names`.
pub open spec fn offers(names: Seq<Vec<u8>>, name: Seq<u8>, n: int) -> bool {
    exists|k: int| 0 <= k < n && k < names.len() && (#[trigger] names[k])@ == name
}

/// The place of the first of `required`, from place `from` on, that
/// `found` does not offer.
pub open spec fn first_missing(required: Seq<Vec<u8>>, found: Seq<Vec<u8>>, from: int) -> Option<
    int,
>
    decreases required.len() - from,
{
    if from < 0 || from >= required.len() {
        None
    } else if !offers(found, required[from]@, found.len() as int) {
        Some(from)
    } else {
        first_missing(required, found, from + 1)
    }
}

/// Checks that a device offers the extensions required: hands back the
/// place of the first that it does not offer, or `None` when it offers
/// all.
pub fn check_device_extensions(found: &Vec<Vec<u8>>, required: &Vec<Vec<u8>>) -> (r: Option<usize>)
    ensures
        match first_missing(required@, found@, 0) {
            Some(i) => r == Some(i as usize) && 0 <= i < required@.len(),
            None => r is None,
        },
{
    let mut i: usize = 0;
    while i < required.len()
        invariant
            i <= required@.len(),
            first_missing(required@, found@, 0) == first_missing(required@, found@, i as int),
        decreases required@.len() - i,
    {
        let mut offered = false;
        let mut k: usize = 0;
        while k < found.len()
            invariant_except_break
                k <= found@.len(),
                i < required@.len(),
                !offered,
                !offers(found@, required@[i as int]@, k as int),
            ensures
                offered == offers(found@, required@[i as int]@, found@.len() as int),
            decreases found@.len() - k,
        {
            if same_name(&required[i], &found[k]) {
                offered = true;
                assert(found@[k as int]@ == required@[i as int]@);
                break ;
            }
            k += 1;
        }
        if !offered {
            return Some(i);
        }
        i += 1;
    }
    None
}

/// Whether a family serves as the main family: it can do graphics,
/// transfer and compute.
pub open spec fn is_main(f: QueueFamily) -> bool {
    &&& f.queue_flags & QUEUE_GRAPHICS == QUEUE_GRAPHICS
    &&& f.queue_flags & QUEUE_TRANSFER == QUEUE_TRANSFER
    &&& f.queue_flags & QUEUE_COMPUTE == QUEUE_COMPUTE
}

/// The first main family from place `from` on.
pub open spec fn first_main(families: Seq<QueueFamily>, from: int) -> Option<int>
    decreases families.len() - from,
{
    if from < 0 || from >= families.len() {
        None
    } else if is_main(families[from]) {
        Some(from)
    } else {
        first_main(families, from + 1)
    }
}

/// How often `i` occurs in `taken`.
pub open spec fn times(taken: Seq<int>, i: int) -> int
    decreases taken.len(),
{
    if taken.len() == 0 {
        0
    } else {
        times(taken.drop_last(), i) + if taken.last() == i {
            1int
        } else {
            0int
        }
    }
}

/// How many queues of family `i` are left after a queue was taken from
/// each family in `taken`.
pub open spec fn left(families: Seq<QueueFamily>, taken: Seq<int>, i: int) -> int {
    families[i].queue_count - times(taken, i)
}

/// What a search through the families gives.
pub enum Found {
    /// The device could not answer.
    Failed,
    /// No family fits.
    Nothing,
    /// The family at this place fits best.
    Family(int),
}

/// Searches the families from place `from` on for one that fits: the
/// first fitting family outside `taken` ends the search; otherwise the
/// last fitting family is kept. With `surface` the families that fit are
/// those that can present and have a queue left, and a family of which
/// the device could not say ends the search in failure; otherwise they
/// are those that hold all of `flags` and have a queue left.
pub open spec fn search(
    families: Seq<QueueFamily>,
    taken: Seq<int>,
    surface: bool,
    flags: u32,
    from: int,
    best: Found,
) -> Found
    decreases families.len() - from,
{
    if from < 0 || from >= families.len() {
        best
    } else if surface && families[from].surface_support is None {
        Found::Failed
    } else {
        let fits = (if surface {
            families[from].surface_support == Some(true)
        } else {
            families[from].queue_flags & flags == flags
        }) && left(families, taken, from) > 0;
        if fits && !taken.contains(from) {
            Found::Family(from)
        } else if fits {
            search(families, taken, surface, flags, from + 1, Found::Family(from))
        } else {
            search(families, taken, surface, flags, from + 1, best)
        }
    }
}

/// The four families in the order main, present, transfer, compute, each
/// once.
pub open spec fn unique_families(main: u32, present: u32, transfer: u32, compute: u32) -> Seq<u32> {
    let a = seq![main];
    let b = if present != main {
        a.push(present)
    } else {
        a
    };
    let c = if transfer != main && transfer != present {
        b.push(transfer)
    } else {
        b
    };
    if compute != main && compute != present && compute != transfer {
        c.push(compute)
    } else {
        c
    }
}

/// The families of the four queues: the main family is the first that can
/// do graphics, transfer and compute; the present, transfer and compute
/// families are searched for in this order, each preferring a family that
/// no earlier queue took. `None` when a queue finds no family.
pub open spec fn spec_find(families: Seq<QueueFamily>) -> Option<(int, int, int, int)> {
    match first_main(families, 0) {
        None => None,
        Some(main) => match search(families, seq![main], true, 0, 0, Found::Nothing) {
            Found::Family(present) => match search(
                families,
                seq![main, present],
                false,
                QUEUE_TRANSFER,
                0,
                Found::Nothing,
            ) {
                Found::Family(transfer) => match search(
                    families,
                    seq![main, present, transfer],
                    false,
                    QUEUE_COMPUTE,
                    0,
                    Found::Nothing,
                ) {
                    Found::Family(compute) => Some((main, present, transfer, compute)),
                    _ => None,
                },
                _ => None,
            },
            _ => None,
        },
    }
}

/// Searches the families; see [`search`]. `counts` holds the queues that
/// are left in each family, and `taken` the families that earlier queues
/// took.
fn run_search(
    families: &Vec<QueueFamily>,
    counts: &Vec<u32>,
    taken: &Vec<usize>,
    surface: bool,
    flags: u32,
    Ghost(taken_spec): Ghost<Seq<int>>,
) -> (r: Option<usize>)
    requires
        counts@.len() == families@.len(),
        forall|i: int| 0 <= i < families@.len() ==> counts@[i] == left(families@, taken_spec, i),
        forall|i: int| taken_spec.contains(i) <==> exists|k: int| 0 <= k < taken@.len() && taken@[k] == i,
    ensures
        match search(families@, taken_spec, surface, flags, 0, Found::Nothing) {
            Found::Family(i) => r == Some(i as usize) && 0 <= i < families@.len(),
            _ => r is None,
        },
{
    let mut best: Option<usize> = None;
    let mut i: usize = 0;
    while i < families.len()
        invariant_except_break
            i <= families@.len(),
            counts@.len() == families@.len(),
            forall|i: int| 0 <= i < families@.len() ==> counts@[i] == left(families@, taken_spec, i),
            forall|i: int|
                taken_spec.contains(i) <==> exists|k: int| 0 <= k < taken@.len() && taken@[k] == i,
            best is Some ==> best->0 < families@.len(),
            search(families@, taken_spec, surface, flags, 0, Found::Nothing) == search(
                families@,
                taken_spec,
                surface,
                flags,
                i as int,
                match best {
                    Some(b) => Found::Family(b as int),
                    None => Found::Nothing,
                },
            ),
        ensures
            match search(families@, taken_spec, surface, flags, 0, Found::Nothing) {
                Found::Family(i) => best == Some(i as usize) && 0 <= i < families@.len(),
                _ => best is None,
            },
        decreases families@.len() - i,
    {
        let family = families[i];
        let fits = if surface {
            match family.surface_support {
                Some(support) => support,
                None => {
                    best = None;
                    break ;
                },
            }
        } else {
            family.queue_flags & flags == flags
        } && counts[i] > 0;
        if fits {
            best = Some(i);
            let mut is_taken = false;
            let mut k: usize = 0;
            while k < taken.len()
                invariant
                    k <= taken@.len(),
                    is_taken == exists|j: int| 0 <= j < k && taken@[j] == i,
                decreases taken@.len() - k,
            {
                if taken[k] == i {
                    is_taken = true;
                }
                k += 1;
            }
            assert(is_taken == taken_spec.contains(i as int));
            if !is_taken {
                break ;
            }
        }
        i += 1;
    }
    best
}

impl QueueFamilyIndices {
    /// Chooses the families of the four queues of a device; see
    /// [`spec_find`]. Every family has at least one queue.
    pub fn find(families: &Vec<QueueFamily>) -> (r: Option<QueueFamilyIndices>)
        requires
            families@.len() <= u32::MAX,
            forall|i: int| 0 <= i < families@.len() ==> (#[trigger] families@[i]).queue_count > 0,
        ensures
            match spec_find(families@) {
                Some((main, present, transfer, compute)) => r is Some && r->0.main == main
                    && r->0.present == present && r->0.transfer == transfer && r->0.compute
                    == compute && r->0.unique@ == unique_families(
                    r->0.main,
                    r->0.present,
                    r->0.transfer,
                    r->0.compute,
                ),
                None => r is None,
            },
    {
        let mut counts: Vec<u32> = Vec::new();
        let mut i: usize = 0;
        while i < families.len()
            invariant
                i <= families@.len(),
                counts@.len() == i,
                forall|k: int| 0 <= k < i ==> counts@[k] == families@[k].queue_count,
            decreases families@.len() - i,
        {
            counts.push(families[i].queue_count);
            i += 1;
        }

        // The main family: most likely the first.
        let mut main_found: Option<usize> = None;
        let mut m: usize = 0;
        while m < families.len()
            invariant_except_break
                m <= families@.len(),
                main_found is None,
                first_main(families@, 0) == first_main(families@, m as int),
            ensures
                match first_main(families@, 0) {
                    Some(i) => main_found == Some(i as usize) && 0 <= i < families@.len(),
                    None => main_found is None,
                },
            decreases families@.len() - m,
        {
            let f = families[m];
            if f.queue_flags & QUEUE_GRAPHICS == QUEUE_GRAPHICS && f.queue_flags & QUEUE_TRANSFER
                == QUEUE_TRANSFER && f.queue_flags & QUEUE_COMPUTE == QUEUE_COMPUTE {
                main_found = Some(m);
                break ;
            }
            m += 1;
        }
        let main = match main_found {
            Some(main) => main,
            None => {
                return None;
            },
        };
        let mut taken: Vec<usize> = Vec::new();
        let ghost mut taken_spec: Seq<int> = Seq::empty();
        proof {
            assert forall|i: int| 0 <= i < families@.len() implies counts@[i] == left(
                families@,
                taken_spec,
                i,
            ) by {}
        }
        take_queue(families, &mut counts, &mut taken, main, Ghost(taken_spec));
        proof {
            taken_spec = taken_spec.push(main as int);
            assert(taken_spec =~= seq![main as int]);
        }

        // The present family: better not the main family.
        let present = match run_search(families, &counts, &taken, true, 0, Ghost(taken_spec)) {
            Some(present) => present,
            None => {
                return None;
            },
        };
        proof {
            lemma_search_fits(families@, taken_spec, true, 0, 0, Found::Nothing);
        }
        take_queue(families, &mut counts, &mut taken, present, Ghost(taken_spec));
        proof {
            taken_spec = taken_spec.push(present as int);
            assert(taken_spec =~= seq![main as int, present as int]);
        }

        // A transfer family of its own where the device has one.
        let transfer = match run_search(
            families,
            &counts,
            &taken,
            false,
            QUEUE_TRANSFER,
            Ghost(taken_spec),
        ) {
            Some(transfer) => transfer,
            None => {
                return None;
            },
        };
        proof {
            lemma_search_fits(families@, taken_spec, false, QUEUE_TRANSFER, 0, Found::Nothing);
        }
        take_queue(families, &mut counts, &mut taken, transfer, Ghost(taken_spec));
        proof {
            taken_spec = taken_spec.push(transfer as int);
            assert(taken_spec =~= seq![main as int, present as int, transfer as int]);
        }

        // A compute family of its own where the device has one.
        let compute = match run_search(
            families,
            &counts,
            &taken,
            false,
            QUEUE_COMPUTE,
            Ghost(taken_spec),
        ) {
            Some(compute) => compute,
            None => {
                return None;
            },
        };

        let main = main as u32;
        let present = present as u32;
        let transfer = transfer as u32;
        let compute = compute as u32;
        let mut unique: Vec<u32> = Vec::new();
        unique.push(main);
        if present != main {
            unique.push(present);
        }
        if transfer != main && transfer != present {
            unique.push(transfer);
        }
        if compute != main && compute != present && compute != transfer {
            unique.push(compute);
        }
        proof {
            assert(unique@ =~= unique_families(main, present, transfer, compute));
        }
        Some(QueueFamilyIndices { main, present, transfer, compute, unique })
    }

    /// The place of each queue among the queues that are created in its
    /// family, in the order main, transfer, present, compute: a queue
    /// comes after the earlier queues of the same family.
    pub fn queue_slots(&self) -> (r: (u32, u32, u32, u32))
        ensures
            r.0 == 0,
            r.1 == (if self.transfer == self.main {
                1u32
            } else {
                0u32
            }),
            r.2 == (if self.present == self.main {
                1u32
            } else {
                0u32
            }) + (if self.present == self.transfer {
                1u32
            } else {
                0u32
            }),
            r.3 == (if self.compute == self.main {
                1u32
            } else {
                0u32
            }) + (if self.compute == self.transfer {
                1u32
            } else {
                0u32
            }) + (if self.compute == self.present {
                1u32
            } else {
                0u32
            }),
    {
        let transfer: u32 = if self.transfer == self.main {
            1
        } else {
            0
        };
        let mut present: u32 = 0;
        if self.present == self.main {
            present += 1;
        }
        if self.present == self.transfer {
            present += 1;
        }
        let mut compute: u32 = 0;
        if self.compute == self.main {
            compute += 1;
        }
        if self.compute == self.transfer {
            compute += 1;
        }
        if self.compute == self.present {
            compute += 1;
        }
        (0, transfer, present, compute)
    }

    /// How many queues are created in family `family`: one for each of the
    /// four queues that lies in it.
    pub fn queue_count(&self, family: u32) -> (r: u32)
        ensures
            r == (if self.main == family {
                1u32
            } else {
                0u32
            }) + (if self.transfer == family {
                1u32
            } else {
                0u32
            }) + (if self.present == family {
                1u32
            } else {
                0u32
            }) + (if self.compute == family {
                1u32
            } else {
                0u32
            }),
    {
        let mut count: u32 = 0;
        if self.main == family {
            count += 1;
        }
        if self.transfer == family {
            count += 1;
        }
        if self.present == family {
            count += 1;
        }
        if self.compute == family {
            count += 1;
        }
        count
    }
}

/// A family that a search finds has a queue left.
proof fn lemma_search_fits(
    families: Seq<QueueFamily>,
    taken: Seq<int>,
    surface: bool,
    flags: u32,
    from: int,
    best: Found,
)
    requires
        0 <= from,
        best matches Found::Family(b) ==> 0 <= b < families.len() && left(families, taken, b) > 0,
    ensures
        search(families, taken, surface, flags, from, best) matches Found::Family(i) ==> 0 <= i
            < families.len() && left(families, taken, i) > 0,
    decreases families.len() - from,
{
    if from < families.len() && !(surface && families[from].surface_support is None) {
        let fits = (if surface {
            families[from].surface_support == Some(true)
        } else {
            families[from].queue_flags & flags == flags
        }) && left(families, taken, from) > 0;
        if fits && !taken.contains(from) {
        } else if fits {
            lemma_search_fits(families, taken, surface, flags, from + 1, Found::Family(from));
        } else {
            lemma_search_fits(families, taken, surface, flags, from + 1, best);
        }
    }
}

/// Takes one queue from family `at`.
fn take_queue(
    families: &Vec<QueueFamily>,
    counts: &mut Vec<u32>,
    taken: &mut Vec<usize>,
    at: usize,
    Ghost(taken_spec): Ghost<Seq<int>>,
)
    requires
        at < families@.len(),
        old(counts)@.len() == families@.len(),
        forall|i: int|
            0 <= i < families@.len() ==> old(counts)@[i] == left(families@, taken_spec, i),
        left(families@, taken_spec, at as int) > 0,
        forall|i: int|
            taken_spec.contains(i) <==> exists|k: int| 0 <= k < old(taken)@.len() && old(taken)@[k] == i,
    ensures
        final(counts)@.len() == families@.len(),
        forall|i: int|
            0 <= i < families@.len() ==> final(counts)@[i] == left(
                families@,
                taken_spec.push(at as int),
                i,
            ),
        forall|i: int|
            taken_spec.push(at as int).contains(i) <==> exists|k: int|
                0 <= k < final(taken)@.len() && final(taken)@[k] == i,
{
    let c = counts[at];
    counts.set(at, c - 1);
    taken.push(at);
    proof {
        let after = taken_spec.push(at as int);
        assert forall|i: int| 0 <= i < families@.len() implies counts@[i] == left(
            families@,
            after,
            i,
        ) by {
            assert(after.drop_last() =~= taken_spec);
        }
        assert forall|i: int| after.contains(i) <==> exists|k: int|
            0 <= k < taken@.len() && taken@[k] == i by {
            if after.contains(i) {
                let j = choose|j: int| 0 <= j < after.len() && after[j] == i;
                if j < taken_spec.len() {
                    assert(taken_spec.contains(i));
                    let k = choose|k: int| 0 <= k < old(taken)@.len() && old(taken)@[k] == i;
                    assert(taken@[k] == i);
                } else {
                    assert(taken@[old(taken)@.len() as int] == i);
                }
            }
            if exists|k: int| 0 <= k < taken@.len() && taken@[k] == i {
                let k = choose|k: int| 0 <= k < taken@.len() && taken@[k] == i;
                if k < old(taken)@.len() {
                    assert(old(taken)@[k] == i);
                    assert(taken_spec.contains(i));
                    let j = choose|j: int| 0 <= j < taken_spec.len() && taken_spec[j] == i;
                    assert(after[j] == i);
                } else {
                    assert(after[taken_spec.len() as int] == i);
                }
            }
        }
    }
}

/// Whether a device fits: it offers every extension required, some
/// surface format and some present mode, and a family for each queue.
pub open spec fn suitable(d: DeviceInfo, required: Seq<Vec<u8>>) -> bool {
    &&& first_missing(required, d.extensions@, 0) is None
    &&& d.format_count is Some && d.format_count->0 > 0
    &&& d.present_mode_count is Some && d.present_mode_count->0 > 0
    &&& spec_find(d.families@) is Some
}

/// The place of the best among the first `n` devices: of those that fit,
/// the last of the most preferred kind. `None` when no device fits.
pub open spec fn best_device(devices: Seq<DeviceInfo>, required: Seq<Vec<u8>>, n: int) -> Option<int>
    decreases n,
{
    if n <= 0 {
        None
    } else {
        let before = best_device(devices, required, n - 1);
        if suitable(devices[n - 1], required) && (match before {
            Some(b) => spec_device_type_rank(devices[n - 1].device_type) >= spec_device_type_rank(
                devices[b].device_type,
            ),
            None => true,
        }) {
            Some(n - 1)
        } else {
            before
        }
    }
}

/// Picks the best of the devices; see [`best_device`]. Every queue family
/// of every device has at least one queue.
pub fn pick_physical_device(devices: &Vec<DeviceInfo>, required: &Vec<Vec<u8>>) -> (r: Option<usize>)
    requires
        forall|d: int, i: int|
            0 <= d < devices@.len() && 0 <= i < devices@[d].families@.len() ==> (
            #[trigger] devices@[d].families@[i]).queue_count > 0,
        forall|d: int| 0 <= d < devices@.len() ==> (#[trigger] devices@[d]).families@.len() <= u32::MAX,
    ensures
        match best_device(devices@, required@, devices@.len() as int) {
            Some(i) => r == Some(i as usize) && 0 <= i < devices@.len(),
            None => r is None,
        },
{
    let mut best: Option<usize> = None;
    let mut best_rank: u32 = 0;
    let mut i: usize = 0;
    while i < devices.len()
        invariant
            i <= devices@.len(),
            forall|d: int, k: int|
                0 <= d < devices@.len() && 0 <= k < devices@[d].families@.len() ==> (
                #[trigger] devices@[d].families@[k]).queue_count > 0,
            forall|d: int|
                0 <= d < devices@.len() ==> (#[trigger] devices@[d]).families@.len() <= u32::MAX,
            match best_device(devices@, required@, i as int) {
                Some(b) => best == Some(b as usize) && 0 <= b < i && best_rank
                    == spec_device_type_rank(devices@[b].device_type),
                None => best is None,
            },
        decreases devices@.len() - i,
    {
        let device = &devices[i];
        assert(devices@[i as int].families@.len() <= u32::MAX);
        assert forall|k: int| 0 <= k < device.families@.len() implies (
        #[trigger] device.families@[k]).queue_count > 0 by {
            assert(devices@[i as int].families@[k].queue_count > 0);
        }
        let fits = check_device_extensions(&device.extensions, required).is_none() && (
        match device.format_count {
            Some(n) => n > 0,
            None => false,
        }) && (match device.present_mode_count {
            Some(n) => n > 0,
            None => false,
        }) && QueueFamilyIndices::find(&device.families).is_some();
        if fits {
            let rank = device_type_rank(device.device_type);
            if best.is_none() || rank >= best_rank {
                best = Some(i);
                best_rank = rank;
            }
        }
        i += 1;
    }
    best
}

} // verus!
