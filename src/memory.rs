//! A task's address space: an ordered collection of non-overlapping,
//! page-aligned virtual regions, each with permission bits and its own
//! zero-initialised backing bytes.
use vstd::prelude::*;
use crate::config::PAGE_SIZE;

verus! {

/// Page-table permission bit: readable.
pub const PERM_R: u8 = 2;
/// Page-table permission bit: writable.
pub const PERM_W: u8 = 4;
/// Page-table permission bit: executable.
pub const PERM_X: u8 = 8;
/// Page-table permission bit: accessible from user mode.
pub const PERM_U: u8 = 16;

/// The mathematical value of one region.
pub struct AreaView {
    pub start: int,
    pub end: int,
    pub perm: u8,
    pub data: Seq<u8>,
}

/// One mapped region `[start, end)` and its backing bytes.
pub struct MapArea {
    pub start: usize,
    pub end: usize,
    pub perm: u8,
    pub data: Vec<u8>,
}

impl View for MapArea {
    type V = AreaView;

    open spec fn view(&self) -> AreaView {
        AreaView { start: self.start as int, end: self.end as int, perm: self.perm, data: self.data@ }
    }
}

/// The regions of one task's address space, in the order they were mapped.
pub struct MemorySet {
    pub areas: Vec<MapArea>,
}

impl View for MemorySet {
    type V = Seq<AreaView>;

    open spec fn view(&self) -> Seq<AreaView> {
        self.areas@.map_values(|a: MapArea| a@)
    }
}

/// `x` lies inside region `a`.
pub open spec fn area_holds(a: AreaView, x: int) -> bool {
    a.start <= x < a.end
}

/// Regions `a` and `b` share no address.
pub open spec fn disjoint(a: AreaView, b: AreaView) -> bool {
    a.end <= b.start || b.end <= a.start
}

/// Region `a` shares an address with `[start, end)`.
pub open spec fn intersects(a: AreaView, start: int, end: int) -> bool {
    a.start < end && start < a.end && start < end
}

/// Region `a` lies within `[start, end)`.
pub open spec fn contained(a: AreaView, start: int, end: int) -> bool {
    start <= a.start && a.end <= end
}

/// Region `a` is non-empty, page-aligned at both ends, fits in the address
/// space, and has one backing byte per address.
pub open spec fn area_ok(a: AreaView) -> bool {
    &&& 0 <= a.start < a.end <= usize::MAX
    &&& a.start % (PAGE_SIZE as int) == 0
    &&& a.end % (PAGE_SIZE as int) == 0
    &&& a.data.len() == a.end - a.start
}

/// Every region is well formed and no two regions overlap.
pub open spec fn areas_wf(s: Seq<AreaView>) -> bool {
    &&& forall|i: int| 0 <= i < s.len() ==> area_ok(#[trigger] s[i])
    &&& forall|i: int, j: int|
        0 <= i < s.len() && 0 <= j < s.len() && i != j ==> disjoint(#[trigger] s[i], #[trigger] s[j])
}

/// `len` rounded up to a whole number of pages.
pub open spec fn round_up(len: int) -> int {
    if len % (PAGE_SIZE as int) == 0 {
        len
    } else {
        len - len % (PAGE_SIZE as int) + PAGE_SIZE as int
    }
}

/// Some region of `s` shares an address with `[start, end)`.
pub open spec fn overlaps_any(s: Seq<AreaView>, start: int, end: int) -> bool {
    exists|i: int| 0 <= i < s.len() && intersects(#[trigger] s[i], start, end)
}

/// Address `x` lies in some region of `s`.
pub open spec fn addr_mapped(s: Seq<AreaView>, x: int) -> bool {
    exists|i: int| 0 <= i < s.len() && #[trigger] area_holds(s[i], x)
}

/// Every address of `[start, end)` lies in some region of `s`.
pub open spec fn covered(s: Seq<AreaView>, start: int, end: int) -> bool {
    forall|x: int| start <= x < end ==> #[trigger] addr_mapped(s, x)
}

/// The page-table bits for the user permission word `port`
/// (bit 0 read, bit 1 write, bit 2 execute), user access always added.
pub open spec fn perm_of_port(port: int) -> u8 {
    (port * 2 + PERM_U as int) as u8
}

/// The permission word holds only read/write/execute bits, and at least one.
pub open spec fn port_valid(port: int) -> bool {
    0 < port <= 7
}

/// `allocate_new_space(start, len, port)` succeeds on address space `s`: the
/// permission word is valid, `start` is page-aligned, the rounded range fits
/// in the address space and meets no mapped region.
pub open spec fn allocate_ok(s: Seq<AreaView>, start: int, len: int, port: int) -> bool {
    &&& port_valid(port)
    &&& start % (PAGE_SIZE as int) == 0
    &&& start + round_up(len) <= usize::MAX
    &&& !overlaps_any(s, start, start + round_up(len))
}

/// The address space after a successful `allocate_new_space(start, len, port)`
/// on `s`: the new region appended, or, for a length of zero pages, nothing
/// to map.
pub open spec fn allocated(s: Seq<AreaView>, start: int, len: int, port: int) -> Seq<AreaView> {
    if len == 0 {
        s
    } else {
        s.push(new_area(start, len, port))
    }
}

/// The region that a successful `allocate_new_space(start, len, port)` adds.
pub open spec fn new_area(start: int, len: int, port: int) -> AreaView {
    AreaView {
        start,
        end: start + round_up(len),
        perm: perm_of_port(port),
        data: Seq::new(round_up(len) as nat, |i: int| 0u8),
    }
}

/// `deallocate_space(start, len)` succeeds on `s`: `start` is page-aligned,
/// the range `[start, start + len)` is non-empty, fits in the address
/// space, and is exactly the union of one or more whole regions: every
/// address in it is mapped, and every region that meets it lies within it.
pub open spec fn deallocate_ok(s: Seq<AreaView>, start: int, len: int) -> bool {
    &&& start % (PAGE_SIZE as int) == 0
    &&& len > 0
    &&& start + len <= usize::MAX
    &&& covered(s, start, start + len)
    &&& forall|i: int|
        0 <= i < s.len() && intersects(#[trigger] s[i], start, start + len) ==> contained(
            s[i],
            start,
            start + len,
        )
}

/// The regions of `s` that do not lie within `[start, end)`, in order.
pub open spec fn areas_outside(s: Seq<AreaView>, start: int, end: int) -> Seq<AreaView>
    decreases s.len(),
{
    if s.len() == 0 {
        s
    } else {
        let rest = areas_outside(s.drop_first(), start, end);
        if contained(s[0], start, end) {
            rest
        } else {
            seq![s[0]] + rest
        }
    }
}

/// Rounds `len` up to whole pages, or `None` where `start` plus that would
/// leave the address space.
fn rounded_len(start: usize, len: usize) -> (r: Option<usize>)
    ensures
        r.is_some() <==> start + round_up(len as int) <= usize::MAX,
        r.is_some() ==> r.unwrap() == round_up(len as int),
{
    let rem = len % PAGE_SIZE;
    if rem == 0 {
        if len <= usize::MAX - start {
            Some(len)
        } else {
            None
        }
    } else {
        let base = len - rem;
        if base <= usize::MAX - PAGE_SIZE && base + PAGE_SIZE <= usize::MAX - start {
            Some(base + PAGE_SIZE)
        } else {
            None
        }
    }
}

/// `n` zero bytes.
fn zeroed(n: usize) -> (r: Vec<u8>)
    ensures
        r@ == Seq::new(n as nat, |i: int| 0u8),
{
    let mut v: Vec<u8> = Vec::new();
    while v.len() < n
        invariant
            v.len() <= n,
            v@ == Seq::new(v.len() as nat, |i: int| 0u8),
        decreases n - v.len(),
    {
        v.push(0);
        assert(v@ =~= Seq::new(v.len() as nat, |i: int| 0u8));
    }
    v
}


/// A copy of `v`.
fn copy_bytes(v: &Vec<u8>) -> (r: Vec<u8>)
    ensures
        r@ == v@,
{
    let mut r: Vec<u8> = Vec::new();
    let mut i: usize = 0;
    while i < v.len()
        invariant
            i <= v.len(),
            r@ == v@.subrange(0, i as int),
        decreases v.len() - i,
    {
        r.push(v[i]);
        i += 1;
        assert(r@ =~= v@.subrange(0, i as int));
    }
    assert(r@ =~= v@);
    r
}

/// Dropping the regions that lie within a range keeps an address space
/// well formed, and keeps only regions it had.
proof fn lemma_outside_wf(s: Seq<AreaView>, start: int, end: int)
    requires
        areas_wf(s),
    ensures
        areas_wf(areas_outside(s, start, end)),
        forall|k: int|
            0 <= k < areas_outside(s, start, end).len() ==> s.contains(
                #[trigger] areas_outside(s, start, end)[k],
            ),
    decreases s.len(),
{
    if s.len() > 0 {
        let rest = s.drop_first();
        assert forall|i: int, j: int|
            0 <= i < rest.len() && 0 <= j < rest.len() && i != j implies disjoint(
                #[trigger] rest[i],
                #[trigger] rest[j],
            ) by {
            assert(rest[i] == s[i + 1] && rest[j] == s[j + 1]);
        }
        assert forall|i: int| 0 <= i < rest.len() implies area_ok(#[trigger] rest[i]) by {
            assert(rest[i] == s[i + 1]);
        }
        lemma_outside_wf(rest, start, end);
        let out_rest = areas_outside(rest, start, end);
        let out = areas_outside(s, start, end);
        assert forall|k: int| 0 <= k < out_rest.len() implies s.contains(#[trigger] out_rest[k]) by {
            let j = choose|j: int| 0 <= j < rest.len() && rest[j] == out_rest[k];
            assert(s[j + 1] == out_rest[k]);
        }
        if !contained(s[0], start, end) {
            assert(out == seq![s[0]] + out_rest);
            assert forall|k: int| 0 <= k < out.len() implies s.contains(#[trigger] out[k]) by {
                if k == 0 {
                    assert(s[0] == out[k]);
                } else {
                    assert(out[k] == out_rest[k - 1]);
                }
            }
            assert forall|i: int, j: int|
                0 <= i < out.len() && 0 <= j < out.len() && i != j implies disjoint(
                    #[trigger] out[i],
                    #[trigger] out[j],
                ) by {
                if i == 0 {
                    assert(out[j] == out_rest[j - 1]);
                    assert(s.contains(out_rest[j - 1]));
                } else if j == 0 {
                    assert(out[i] == out_rest[i - 1]);
                    assert(s.contains(out_rest[i - 1]));
                } else {
                    assert(out[i] == out_rest[i - 1] && out[j] == out_rest[j - 1]);
                }
            }
            assert forall|i: int| 0 <= i < out.len() implies area_ok(#[trigger] out[i]) by {
                if i > 0 {
                    assert(out[i] == out_rest[i - 1]);
                }
            }
        }
    }
}

/// A length rounded up to pages is a whole number of pages, at least the
/// length, and less than a page more.
proof fn lemma_round_up(len: int)
    requires
        len >= 0,
    ensures
        round_up(len) % (PAGE_SIZE as int) == 0,
        len <= round_up(len) < len + PAGE_SIZE as int,
        len > 0 ==> round_up(len) > 0,
{
    vstd::arithmetic::div_mod::lemma_fundamental_div_mod(len, PAGE_SIZE as int);
    vstd::arithmetic::div_mod::lemma_mod_multiples_basic(len / (PAGE_SIZE as int), PAGE_SIZE as int);
    vstd::arithmetic::div_mod::lemma_mod_multiples_basic(len / (PAGE_SIZE as int) + 1, PAGE_SIZE as int);
    assert((len / (PAGE_SIZE as int) + 1) * (PAGE_SIZE as int) == len / (PAGE_SIZE as int) * (PAGE_SIZE as int) + PAGE_SIZE as int) by (nonlinear_arith);
}

impl MemorySet {
    pub open spec fn wf(&self) -> bool {
        areas_wf(self@)
    }

    /// An address space with no regions.
    pub fn new_bare() -> (r: MemorySet)
        ensures
            r@ == Seq::<AreaView>::empty(),
            r.wf(),
    {
        let r = MemorySet { areas: Vec::new() };
        assert(r@ =~= Seq::<AreaView>::empty());
        r
    }

    /// Maps `[start, start + len)`, `len` rounded up to whole pages, with the
    /// permissions of `port` (bit 0 read, bit 1 write, bit 2 execute) plus
    /// user access, backed by fresh zero bytes. Returns 0, or -1 with the
    /// address space unchanged when `port` has a bit outside those three or
    /// none of them, `start` is not page-aligned, the range leaves the
    /// address space, or it overlaps a mapped region. A length of zero rounds
    /// to zero pages: nothing is mapped and 0 is returned.
    pub fn allocate_new_space(&mut self, start: usize, len: usize, port: usize) -> (r: isize)
        requires
            old(self).wf(),
        ensures
            final(self).wf(),
            allocate_ok(old(self)@, start as int, len as int, port as int) ==> r == 0 && final(self)@
                == allocated(old(self)@, start as int, len as int, port as int),
            !allocate_ok(old(self)@, start as int, len as int, port as int) ==> r == -1 && final(self)@
                == old(self)@,
    {
        if port > 7 || port == 0 {
            return -1;
        }
        if start % PAGE_SIZE != 0 {
            return -1;
        }
        if len == 0 {
            return 0;
        }
        let rounded = match rounded_len(start, len) {
            Some(n) => n,
            None => {
                return -1;
            },
        };
        assert(rounded == round_up(len as int));
        proof {
            lemma_round_up(len as int);
        }
        let end = start + rounded;
        let n = self.areas.len();
        let mut i: usize = 0;
        while i < n
            invariant
                self@ == old(self)@,
                self.wf(),
                end == start + round_up(len as int),
                start < end,
                n == self.areas.len(),
                i <= n,
                forall|k: int| 0 <= k < i ==> !intersects(#[trigger] self@[k], start as int, end as int),
            decreases n - i,
        {
            let a = &self.areas[i];
            if a.start < end && start < a.end {
                assert(intersects(self@[i as int], start as int, end as int));
                return -1;
            }
            i += 1;
        }
        let perm: u8 = (port * 2) as u8 + PERM_U;
        let area = MapArea { start, end, perm, data: zeroed(rounded) };
        let ghost before = self@;
        proof {
            lemma_round_up(len as int);
        }
        self.areas.push(area);
        assert(self@ =~= before.push(new_area(start as int, len as int, port as int)));
        assert(area_ok(self@[before.len() as int]));
        0
    }

    /// Index of the region that starts exactly at `addr`, if any.
    fn find_starting_at(&self, addr: usize) -> (r: Option<usize>)
        ensures
            r.is_some() ==> r.unwrap() < self@.len() && self@[r.unwrap() as int].start == addr,
            r.is_none() ==> forall|k: int| 0 <= k < self@.len() ==> #[trigger] self@[k].start != addr,
    {
        let mut k: usize = 0;
        while k < self.areas.len()
            invariant
                k <= self.areas.len(),
                forall|q: int| 0 <= q < k ==> #[trigger] self@[q].start != addr,
            decreases self.areas.len() - k,
        {
            if self.areas[k].start == addr {
                return Some(k);
            }
            k += 1;
        }
        None
    }

    /// Index of the region that holds `addr`, if any.
    fn find_holding(&self, addr: usize) -> (r: Option<usize>)
        ensures
            r.is_some() ==> r.unwrap() < self@.len() && area_holds(self@[r.unwrap() as int], addr as int),
            r.is_none() ==> !addr_mapped(self@, addr as int),
    {
        let mut k: usize = 0;
        while k < self.areas.len()
            invariant
                k <= self.areas.len(),
                forall|q: int| 0 <= q < k ==> !#[trigger] area_holds(self@[q], addr as int),
            decreases self.areas.len() - k,
        {
            if self.areas[k].start <= addr && addr < self.areas[k].end {
                return Some(k);
            }
            k += 1;
        }
        None
    }

    /// Unmaps `[start, start + len)`. The range must be exactly the union of
    /// one or more whole mapped regions: every address in it mapped, and
    /// every region that meets it lying within it. Returns 0 with those
    /// regions removed and the rest kept in order, or -1 with the address
    /// space unchanged when `start` is not page-aligned, `len` is zero, the
    /// range leaves the address space, or it is not so covered.
    pub fn deallocate_space(&mut self, start: usize, len: usize) -> (r: isize)
        requires
            old(self).wf(),
        ensures
            final(self).wf(),
            deallocate_ok(old(self)@, start as int, len as int) ==> r == 0 && final(self)@
                == areas_outside(old(self)@, start as int, start + len),
            !deallocate_ok(old(self)@, start as int, len as int) ==> r == -1 && final(self)@
                == old(self)@,
    {
        if start % PAGE_SIZE != 0 || len == 0 {
            return -1;
        }
        if len > usize::MAX - start {
            return -1;
        }
        let end = start + len;
        let n = self.areas.len();
        let mut i: usize = 0;
        while i < n
            invariant
                self@ == old(self)@,
                self.wf(),
                end == start + len,
                start < end,
                n == self.areas.len(),
                i <= n,
                forall|k: int|
                    0 <= k < i && intersects(#[trigger] self@[k], start as int, end as int) ==> contained(
                        self@[k],
                        start as int,
                        end as int,
                    ),
            decreases n - i,
        {
            let a = &self.areas[i];
            if a.start < end && start < a.end && !(start <= a.start && a.end <= end) {
                assert(intersects(self@[i as int], start as int, end as int));
                return -1;
            }
            i += 1;
        }
        let mut cur: usize = start;
        while cur < end
            invariant
                self@ == old(self)@,
                self.wf(),
                end == start + len,
                n == self.areas.len(),
                start <= cur <= end,
                forall|k: int|
                    0 <= k < n && intersects(#[trigger] self@[k], start as int, end as int) ==> contained(
                        self@[k],
                        start as int,
                        end as int,
                    ),
                forall|x: int| start <= x < cur ==> #[trigger] addr_mapped(self@, x),
                cur == start || exists|p: int| 0 <= p < n && #[trigger] self@[p].end == cur && self@[p].start < cur,
            decreases end - cur,
        {
            match self.find_starting_at(cur) {
                Some(k) => {
                    let next = self.areas[k].end;
                    assert forall|x: int| start <= x < next implies #[trigger] addr_mapped(self@, x) by {
                        if x >= cur {
                            assert(area_holds(self@[k as int], x));
                        }
                    }
                    cur = next;
                },
                None => {
                    assert(!addr_mapped(self@, cur as int)) by {
                        if addr_mapped(self@, cur as int) {
                            let j = choose|j: int| 0 <= j < self@.len() && #[trigger] area_holds(self@[j], cur as int);
                            assert(self@[j].start != cur);
                            assert(intersects(self@[j], start as int, end as int));
                            assert(cur > start);
                            let p = choose|p: int| 0 <= p < n && #[trigger] self@[p].end == cur && self@[p].start < cur;
                            assert(disjoint(self@[p], self@[j]));
                        }
                    }
                    return -1;
                },
            }
        }
        assert(deallocate_ok(old(self)@, start as int, len as int));
        let ghost s0 = self@;
        let mut i: usize = n;
        while i > 0
            invariant
                i <= self.areas.len(),
                n == s0.len(),
                i <= n,
                end == start + len,
                self@ == s0.subrange(0, i as int) + areas_outside(s0.subrange(i as int, n as int), start as int, end as int),
            decreases i,
        {
            i -= 1;
            let ghost before = self@;
            let ghost tail = s0.subrange(i as int, n as int);
            assert(tail.drop_first() =~= s0.subrange(i as int + 1, n as int));
            assert(tail[0] == s0[i as int]);
            assert(self@[i as int] == s0[i as int]);
            if start <= self.areas[i].start && self.areas[i].end <= end {
                self.areas.remove(i);
                assert(self@ =~= before.remove(i as int));
                assert(self@ =~= s0.subrange(0, i as int) + areas_outside(tail, start as int, end as int));
            } else {
                assert(before =~= s0.subrange(0, i as int) + areas_outside(tail, start as int, end as int));
            }
        }
        assert(s0.subrange(0, n as int) =~= s0);
        assert(self@ =~= areas_outside(s0, start as int, end as int));
        proof {
            lemma_outside_wf(s0, start as int, end as int);
        }
        0
    }

    /// The byte at virtual address `addr`, or `None` where no region holds it.
    pub fn read_byte(&self, addr: usize) -> (r: Option<u8>)
        requires
            self.wf(),
        ensures
            !addr_mapped(self@, addr as int) ==> r.is_none(),
            forall|k: int|
                0 <= k < self@.len() && #[trigger] area_holds(self@[k], addr as int) ==> r == Some(
                    self@[k].data[addr - self@[k].start],
                ),
    {
        match self.find_holding(addr) {
            Some(k) => {
                assert forall|q: int| 0 <= q < self@.len() && #[trigger] area_holds(self@[q], addr as int) implies q
                    == k by {
                    if q != k {
                        assert(disjoint(self@[q], self@[k as int]));
                    }
                }
                Some(self.areas[k].data[addr - self.areas[k].start])
            },
            None => None,
        }
    }

    /// Stores `v` at virtual address `addr`. Returns whether a region holds
    /// `addr`; where none does, nothing changes.
    pub fn write_byte(&mut self, addr: usize, v: u8) -> (r: bool)
        requires
            old(self).wf(),
        ensures
            final(self).wf(),
            r == addr_mapped(old(self)@, addr as int),
            !r ==> final(self)@ == old(self)@,
            forall|k: int|
                0 <= k < old(self)@.len() && #[trigger] area_holds(old(self)@[k], addr as int) ==> final(self)@
                    == old(self)@.update(
                    k,
                    AreaView {
                        data: old(self)@[k].data.update(addr - old(self)@[k].start, v),
                        ..old(self)@[k]
                    },
                ),
    {
        match self.find_holding(addr) {
            Some(k) => {
                let ghost before = self@;
                assert forall|q: int| 0 <= q < before.len() && #[trigger] area_holds(before[q], addr as int) implies q
                    == k by {
                    if q != k {
                        assert(disjoint(before[q], before[k as int]));
                    }
                }
                let off = addr - self.areas[k].start;
                self.areas[k].data[off] = v;
                assert(self@ =~= before.update(
                    k as int,
                    AreaView { data: before[k as int].data.update(off as int, v), ..before[k as int] },
                ));
                assert forall|i: int, j: int|
                    0 <= i < self@.len() && 0 <= j < self@.len() && i != j implies disjoint(
                        #[trigger] self@[i],
                        #[trigger] self@[j],
                    ) by {
                    assert(disjoint(before[i], before[j]));
                }
                true
            },
            None => false,
        }
    }

    /// A copy of this address space, regions and contents alike, sharing
    /// nothing with it.
    pub fn duplicate(&self) -> (r: MemorySet)
        requires
            self.wf(),
        ensures
            r@ == self@,
            r.wf(),
    {
        let mut r = MemorySet { areas: Vec::new() };
        let mut i: usize = 0;
        while i < self.areas.len()
            invariant
                i <= self.areas.len(),
                r@ == self@.subrange(0, i as int),
            decreases self.areas.len() - i,
        {
            let a = &self.areas[i];
            let copy = MapArea { start: a.start, end: a.end, perm: a.perm, data: copy_bytes(&a.data) };
            let ghost before = r@;
            r.areas.push(copy);
            assert(r@ =~= before.push(self@[i as int]));
            i += 1;
            assert(r@ =~= self@.subrange(0, i as int));
        }
        assert(r@ =~= self@);
        r
    }
}

/// Appending one region appends it to what survives an unmapping too,
/// unless it lies within the unmapped range.
proof fn lemma_outside_push(s: Seq<AreaView>, a: AreaView, start: int, end: int)
    ensures
        areas_outside(s.push(a), start, end) == areas_outside(s, start, end) + (if contained(a, start, end) {
            Seq::<AreaView>::empty()
        } else {
            seq![a]
        }),
    decreases s.len(),
{
    if s.len() == 0 {
        assert(s.push(a).drop_first() =~= s);
        assert(areas_outside(s, start, end) =~= s);
    } else {
        assert(s.push(a).drop_first() =~= s.drop_first().push(a));
        lemma_outside_push(s.drop_first(), a, start, end);
        if contained(s[0], start, end) {
        } else {
            assert((seq![s[0]] + areas_outside(s.drop_first(), start, end)) + (if contained(a, start, end) {
                Seq::<AreaView>::empty()
            } else {
                seq![a]
            }) =~= seq![s[0]] + (areas_outside(s.drop_first(), start, end) + (if contained(a, start, end) {
                Seq::<AreaView>::empty()
            } else {
                seq![a]
            })));
        }
    }
}

/// Unmapping a range that holds none of the regions keeps them all.
proof fn lemma_outside_none(s: Seq<AreaView>, start: int, end: int)
    requires
        forall|i: int| 0 <= i < s.len() ==> !contained(#[trigger] s[i], start, end),
    ensures
        areas_outside(s, start, end) == s,
    decreases s.len(),
{
    if s.len() > 0 {
        assert forall|i: int| 0 <= i < s.drop_first().len() implies !contained(
            #[trigger] s.drop_first()[i],
            start,
            end,
        ) by {
            assert(s.drop_first()[i] == s[i + 1]);
        }
        lemma_outside_none(s.drop_first(), start, end);
        assert(!contained(s[0], start, end));
        assert(seq![s[0]] + s.drop_first() =~= s);
    }
}

/// Mapping a whole number of pages and then unmapping the same range gives
/// back the address space as it was before the mapping: for a non-empty
/// range the unmapping succeeds and removes exactly the new region, and an
/// empty range maps nothing in the first place.
pub proof fn lemma_allocate_deallocate_round_trip(s: Seq<AreaView>, start: int, len: int, port: int)
    requires
        areas_wf(s),
        allocate_ok(s, start, len, port),
        len >= 0,
        len % (PAGE_SIZE as int) == 0,
    ensures
        len > 0 ==> deallocate_ok(allocated(s, start, len, port), start, len) && areas_outside(
            allocated(s, start, len, port),
            start,
            start + len,
        ) == s,
        len == 0 ==> allocated(s, start, len, port) == s,
{
    if len > 0 {
        let end = start + len;
        let a = new_area(start, len, port);
        let t = s.push(a);
        assert(round_up(len) == len);
        assert(allocated(s, start, len, port) == t);
        assert forall|x: int| start <= x < end implies #[trigger] addr_mapped(t, x) by {
            assert(area_holds(t[s.len() as int], x));
        }
        assert forall|i: int| 0 <= i < t.len() && intersects(#[trigger] t[i], start, end) implies contained(
            t[i],
            start,
            end,
        ) by {
            if i < s.len() {
                assert(t[i] == s[i]);
                assert(!intersects(s[i], start, end));
            }
        }
        assert forall|i: int| 0 <= i < s.len() implies !contained(#[trigger] s[i], start, end) by {
            assert(!intersects(s[i], start, end));
            assert(area_ok(s[i]));
        }
        lemma_outside_none(s, start, end);
        lemma_outside_push(s, a, start, end);
        assert(areas_outside(t, start, end) =~= s);
    }
}

/// A range whose start is not page-aligned is never mapped, whatever the
/// permission word.
pub proof fn lemma_misaligned_rejected(s: Seq<AreaView>, start: int, len: int, port: int)
    requires
        start % (PAGE_SIZE as int) != 0,
    ensures
        !allocate_ok(s, start, len, port),
{
}

} // verus!
