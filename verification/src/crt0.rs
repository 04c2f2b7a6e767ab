//! Startup-vector construction.
//!
//! The startup vector is the byte-exact content written into the top of the
//! payload's stack: the argument strings, the environment strings and the
//! auxiliary vector, laid out as the process startup convention demands.
//! From the stack pointer upward the region holds the pointer table (argument
//! count, argument pointers, a terminator, environment pointers, a
//! terminator, auxiliary key/value pairs, a terminal pair), then the string
//! bytes the pointers refer to, then zero padding up to the top of the
//! region.

use vstd::prelude::*;

use crate::BootFault;

verus! {

/// Auxiliary vector key: terminal entry.
pub const AT_NULL: u64 = 0;

/// Auxiliary vector key: program-header table address.
pub const AT_PHDR: u64 = 3;

/// Auxiliary vector key: size of one program-header entry.
pub const AT_PHENT: u64 = 4;

/// Auxiliary vector key: number of program headers.
pub const AT_PHNUM: u64 = 5;

/// Auxiliary vector key: page size.
pub const AT_PAGESZ: u64 = 6;

/// Auxiliary vector key: flags.
pub const AT_FLAGS: u64 = 8;

/// Auxiliary vector key: entry point of the program.
pub const AT_ENTRY: u64 = 9;

/// Auxiliary vector key: real user id.
pub const AT_UID: u64 = 11;

/// Auxiliary vector key: effective user id.
pub const AT_EUID: u64 = 12;

/// Auxiliary vector key: real group id.
pub const AT_GID: u64 = 13;

/// Auxiliary vector key: effective group id.
pub const AT_EGID: u64 = 14;

/// Auxiliary vector key: platform name string.
pub const AT_PLATFORM: u64 = 15;

/// Auxiliary vector key: hardware capability bits.
pub const AT_HWCAP: u64 = 16;

/// Auxiliary vector key: clock tick frequency.
pub const AT_CLKTCK: u64 = 17;

/// Auxiliary vector key: secure-execution flag.
pub const AT_SECURE: u64 = 23;

/// Auxiliary vector key: sixteen random bytes for entropy seeding.
pub const AT_RANDOM: u64 = 25;

/// Auxiliary vector key: second hardware capability word.
pub const AT_HWCAP2: u64 = 26;

/// Auxiliary vector key: pathname of the executed program.
pub const AT_EXECFN: u64 = 31;

/// One auxiliary vector entry, as appended by the stack builder.
pub enum AuxEntry {
    /// Pathname of the executed program; serialized as a pointed-to string.
    ExecFilename(Vec<u8>),
    /// Platform name; serialized as a pointed-to string.
    Platform(Vec<u8>),
    /// Real user id.
    Uid(u64),
    /// Effective user id.
    EUid(u64),
    /// Real group id.
    Gid(u64),
    /// Effective group id.
    EGid(u64),
    /// Page size.
    PageSize(u64),
    /// Secure-execution flag.
    Secure(bool),
    /// Clock tick frequency.
    ClockTick(u64),
    /// Flags word.
    Flags(u64),
    /// Program-header table address.
    PHdr(u64),
    /// Size of one program-header entry.
    PHent(u64),
    /// Number of program headers.
    PHnum(u64),
    /// Hardware capability bits.
    HwCap(u64),
    /// Second hardware capability word.
    HwCap2(u64),
    /// Sixteen random bytes, given as two 64-bit halves; serialized as a
    /// pointed-to blob.
    Random(u64, u64),
    /// Entry point of the program.
    Entry(u64),
}

/// Ghost model of an auxiliary entry's value: either an immediate word or a
/// blob placed in the string area and referred to by pointer.
pub enum AuxValue {
    /// An immediate value word.
    Word(u64),
    /// Bytes placed in the string area; the entry's value is their address.
    Blob(Seq<u8>),
}

/// The eight little-endian bytes of a 64-bit word.
pub open spec fn le64(x: u64) -> Seq<u8> {
    seq![
        (x & 0xff) as u8,
        ((x >> 8) & 0xff) as u8,
        ((x >> 16) & 0xff) as u8,
        ((x >> 24) & 0xff) as u8,
        ((x >> 32) & 0xff) as u8,
        ((x >> 40) & 0xff) as u8,
        ((x >> 48) & 0xff) as u8,
        ((x >> 56) & 0xff) as u8,
    ]
}

/// Key and value model of one auxiliary entry.
pub open spec fn aux_model(e: AuxEntry) -> (u64, AuxValue) {
    match e {
        AuxEntry::ExecFilename(s) => (AT_EXECFN, AuxValue::Blob(s@ + seq![0u8])),
        AuxEntry::Platform(s) => (AT_PLATFORM, AuxValue::Blob(s@ + seq![0u8])),
        AuxEntry::Uid(v) => (AT_UID, AuxValue::Word(v)),
        AuxEntry::EUid(v) => (AT_EUID, AuxValue::Word(v)),
        AuxEntry::Gid(v) => (AT_GID, AuxValue::Word(v)),
        AuxEntry::EGid(v) => (AT_EGID, AuxValue::Word(v)),
        AuxEntry::PageSize(v) => (AT_PAGESZ, AuxValue::Word(v)),
        AuxEntry::Secure(b) => (
            AT_SECURE,
            AuxValue::Word(
                if b {
                    1
                } else {
                    0
                },
            ),
        ),
        AuxEntry::ClockTick(v) => (AT_CLKTCK, AuxValue::Word(v)),
        AuxEntry::Flags(v) => (AT_FLAGS, AuxValue::Word(v)),
        AuxEntry::PHdr(v) => (AT_PHDR, AuxValue::Word(v)),
        AuxEntry::PHent(v) => (AT_PHENT, AuxValue::Word(v)),
        AuxEntry::PHnum(v) => (AT_PHNUM, AuxValue::Word(v)),
        AuxEntry::HwCap(v) => (AT_HWCAP, AuxValue::Word(v)),
        AuxEntry::HwCap2(v) => (AT_HWCAP2, AuxValue::Word(v)),
        AuxEntry::Random(lo, hi) => (AT_RANDOM, AuxValue::Blob(le64(lo) + le64(hi))),
        AuxEntry::Entry(v) => (AT_ENTRY, AuxValue::Word(v)),
    }
}

/// The blob an auxiliary entry places in the string area; empty for
/// immediate entries.
pub open spec fn blob_of(p: (u64, AuxValue)) -> Seq<u8> {
    match p.1 {
        AuxValue::Blob(b) => b,
        AuxValue::Word(_) => Seq::empty(),
    }
}

/// The value word of an auxiliary entry: the immediate value, or the
/// address of its blob.
pub open spec fn word_of(p: (u64, AuxValue), ptr: u64) -> u64 {
    match p.1 {
        AuxValue::Word(w) => w,
        AuxValue::Blob(_) => ptr,
    }
}

/// The string area bytes of a string list: each string followed by its
/// terminating zero, in list order.
pub open spec fn cstrs(xs: Seq<Seq<u8>>) -> Seq<u8>
    decreases xs.len(),
{
    if xs.len() == 0 {
        Seq::empty()
    } else {
        cstrs(xs.drop_last()) + xs.last() + seq![0u8]
    }
}

/// The pointers to the strings of a list laid out consecutively from
/// address `start`.
pub open spec fn str_ptrs(xs: Seq<Seq<u8>>, start: int) -> Seq<u64>
    decreases xs.len(),
{
    if xs.len() == 0 {
        Seq::empty()
    } else {
        str_ptrs(xs.drop_last(), start).push((start + cstrs(xs.drop_last()).len()) as u64)
    }
}

/// The string-area bytes contributed by the auxiliary entries, in entry
/// order.
pub open spec fn aux_blobs(es: Seq<(u64, AuxValue)>) -> Seq<u8>
    decreases es.len(),
{
    if es.len() == 0 {
        Seq::empty()
    } else {
        aux_blobs(es.drop_last()) + blob_of(es.last())
    }
}

/// The key/value words of the auxiliary entries, blobs laid out
/// consecutively from address `pstart`.
pub open spec fn aux_words(es: Seq<(u64, AuxValue)>, pstart: int) -> Seq<u64>
    decreases es.len(),
{
    if es.len() == 0 {
        Seq::empty()
    } else {
        aux_words(es.drop_last(), pstart) + seq![
            es.last().0,
            word_of(es.last(), (pstart + aux_blobs(es.drop_last()).len()) as u64),
        ]
    }
}

/// The little-endian serialization of a word list.
pub open spec fn words_bytes(ws: Seq<u64>) -> Seq<u8>
    decreases ws.len(),
{
    if ws.len() == 0 {
        Seq::empty()
    } else {
        words_bytes(ws.drop_last()) + le64(ws.last())
    }
}

/// Number of words in the pointer table: argument count, argument pointers,
/// terminator, environment pointers, terminator, auxiliary pairs, terminal
/// pair.
pub open spec fn table_words(args: Seq<Seq<u8>>, envs: Seq<Seq<u8>>, aux: Seq<(u64, AuxValue)>) -> int {
    1 + args.len() as int + 1 + envs.len() as int + 1 + 2 * aux.len() as int + 2
}

/// Total length of the string area.
pub open spec fn strings_len(args: Seq<Seq<u8>>, envs: Seq<Seq<u8>>, aux: Seq<(u64, AuxValue)>) -> int {
    cstrs(args).len() as int + cstrs(envs).len() as int + aux_blobs(aux).len() as int
}

/// Bytes the startup vector occupies: the pointer table plus the string
/// area.
pub open spec fn used_len(args: Seq<Seq<u8>>, envs: Seq<Seq<u8>>, aux: Seq<(u64, AuxValue)>) -> int {
    8 * table_words(args, envs, aux) + strings_len(args, envs, aux)
}

/// Offset of the stack pointer within the stack region: the vector sits at
/// the top, moved down to the next sixteen-byte boundary.
pub open spec fn start_off(
    args: Seq<Seq<u8>>,
    envs: Seq<Seq<u8>>,
    aux: Seq<(u64, AuxValue)>,
    cap: u64,
) -> int {
    ((cap - used_len(args, envs, aux)) / 16) * 16
}

/// The words of the pointer table for a vector finalized into the region
/// `[base, base + cap)`.
pub open spec fn sv_words(
    args: Seq<Seq<u8>>,
    envs: Seq<Seq<u8>>,
    aux: Seq<(u64, AuxValue)>,
    base: u64,
    cap: u64,
) -> Seq<u64> {
    let s0 = base + start_off(args, envs, aux, cap) + 8 * table_words(args, envs, aux);
    seq![args.len() as u64] + str_ptrs(args, s0) + seq![0u64] + str_ptrs(
        envs,
        s0 + cstrs(args).len(),
    ) + seq![0u64] + aux_words(aux, s0 + cstrs(args).len() + cstrs(envs).len()) + seq![0u64, 0u64]
}

/// The full byte content of the region from the stack pointer to the top:
/// pointer table, string area, zero padding.
pub open spec fn sv_bytes(
    args: Seq<Seq<u8>>,
    envs: Seq<Seq<u8>>,
    aux: Seq<(u64, AuxValue)>,
    base: u64,
    cap: u64,
) -> Seq<u8> {
    words_bytes(sv_words(args, envs, aux, base, cap)) + cstrs(args) + cstrs(envs) + aux_blobs(aux)
        + Seq::new(
        (cap - start_off(args, envs, aux, cap) - used_len(args, envs, aux)) as nat,
        |i: int| 0u8,
    )
}

/// A prefix of a string list never needs more string-area bytes than the
/// whole list.
proof fn lemma_cstrs_take_le(xs: Seq<Seq<u8>>, i: int)
    requires
        0 <= i <= xs.len(),
    ensures
        cstrs(xs.take(i)).len() <= cstrs(xs).len(),
    decreases xs.len(),
{
    if i == xs.len() {
        assert(xs.take(i) =~= xs);
    } else {
        assert(xs.take(i) =~= xs.drop_last().take(i));
        lemma_cstrs_take_le(xs.drop_last(), i);
    }
}

/// A prefix of the auxiliary entries never needs more blob bytes than all
/// of them.
proof fn lemma_aux_blobs_take_le(es: Seq<(u64, AuxValue)>, i: int)
    requires
        0 <= i <= es.len(),
    ensures
        aux_blobs(es.take(i)).len() <= aux_blobs(es).len(),
    decreases es.len(),
{
    if i == es.len() {
        assert(es.take(i) =~= es);
    } else {
        assert(es.take(i) =~= es.drop_last().take(i));
        lemma_aux_blobs_take_le(es.drop_last(), i);
    }
}

/// There is one pointer per string.
proof fn lemma_str_ptrs_len(xs: Seq<Seq<u8>>, start: int)
    ensures
        str_ptrs(xs, start).len() == xs.len(),
    decreases xs.len(),
{
    if xs.len() > 0 {
        lemma_str_ptrs_len(xs.drop_last(), start);
    }
}

/// There are two words per auxiliary entry.
proof fn lemma_aux_words_len(es: Seq<(u64, AuxValue)>, pstart: int)
    ensures
        aux_words(es, pstart).len() == 2 * es.len(),
    decreases es.len(),
{
    if es.len() > 0 {
        lemma_aux_words_len(es.drop_last(), pstart);
    }
}

/// Serializing words yields eight bytes per word.
proof fn lemma_words_bytes_len(ws: Seq<u64>)
    ensures
        words_bytes(ws).len() == 8 * ws.len(),
    decreases ws.len(),
{
    if ws.len() > 0 {
        lemma_words_bytes_len(ws.drop_last());
    }
}

/// Append the eight little-endian bytes of a word.
fn push_le64(out: &mut Vec<u8>, x: u64)
    ensures
        final(out)@ == old(out)@ + le64(x),
{
    out.push((x & 0xff) as u8);
    out.push(((x >> 8) & 0xff) as u8);
    out.push(((x >> 16) & 0xff) as u8);
    out.push(((x >> 24) & 0xff) as u8);
    out.push(((x >> 32) & 0xff) as u8);
    out.push(((x >> 40) & 0xff) as u8);
    out.push(((x >> 48) & 0xff) as u8);
    out.push(((x >> 56) & 0xff) as u8);
    proof {
        assert(out@ =~= old(out)@ + le64(x));
    }
}

/// Append a byte string.
fn push_bytes(out: &mut Vec<u8>, b: &Vec<u8>)
    ensures
        final(out)@ == old(out)@ + b@,
{
    let n = b.len();
    let mut j: usize = 0;
    while j < n
        invariant
            n == b@.len(),
            0 <= j <= n,
            out@ == old(out)@ + b@.take(j as int),
        decreases n - j,
    {
        out.push(b[j]);
        proof {
            assert(b@.take(j + 1) =~= b@.take(j as int).push(b@[j as int]));
            assert(out@ =~= old(out)@ + b@.take(j + 1));
        }
        j = j + 1;
    }
    proof {
        assert(b@.take(n as int) =~= b@);
    }
}

/// Append a byte string and its terminating zero.
fn push_cstr(out: &mut Vec<u8>, b: &Vec<u8>)
    ensures
        final(out)@ == old(out)@ + b@ + seq![0u8],
{
    push_bytes(out, b);
    out.push(0);
    proof {
        assert(out@ =~= old(out)@ + b@ + seq![0u8]);
    }
}

/// The string-area bytes a string list will occupy, or `None` when the
/// total cannot be represented in 64 bits.
fn cstrs_total(xs: &Vec<Vec<u8>>) -> (t: Option<u64>)
    ensures
        t matches Some(v) ==> v == cstrs(xs.deep_view()).len(),
        t is None ==> cstrs(xs.deep_view()).len() > u64::MAX,
{
    let ghost s = xs.deep_view();
    let n = xs.len();
    let mut acc: u64 = 0;
    let mut i: usize = 0;
    while i < n
        invariant
            n == s.len(),
            s == xs.deep_view(),
            0 <= i <= n,
            acc == cstrs(s.take(i as int)).len(),
        decreases n - i,
    {
        proof {
            assert(s.take(i + 1).drop_last() =~= s.take(i as int));
            assert(s.take(i + 1).last() == s[i as int]);
            assert(xs@[i as int]@ == s[i as int]);
        }
        let l = u64_of_usize(xs[i].len());
        let acc1 = match acc.checked_add(l) {
            Some(a) => a,
            None => {
                proof {
                    lemma_cstrs_take_le(s, i + 1);
                }
                return None;
            },
        };
        acc = match acc1.checked_add(1) {
            Some(a) => a,
            None => {
                proof {
                    lemma_cstrs_take_le(s, i + 1);
                }
                return None;
            },
        };
        i = i + 1;
    }
    proof {
        assert(s.take(n as int) =~= s);
    }
    Some(acc)
}

/// The string-area bytes the auxiliary entries will occupy, or `None` when
/// the total cannot be represented in 64 bits.
fn aux_blobs_total(es: &Vec<AuxEntry>) -> (t: Option<u64>)
    ensures
        t matches Some(v) ==> v == aux_blobs(es@.map_values(|e: AuxEntry| aux_model(e))).len(),
        t is None ==> aux_blobs(es@.map_values(|e: AuxEntry| aux_model(e))).len() > u64::MAX,
{
    let ghost s = es@.map_values(|e: AuxEntry| aux_model(e));
    let n = es.len();
    let mut acc: u64 = 0;
    let mut i: usize = 0;
    while i < n
        invariant
            n == s.len(),
            s == es@.map_values(|e: AuxEntry| aux_model(e)),
            0 <= i <= n,
            acc == aux_blobs(s.take(i as int)).len(),
        decreases n - i,
    {
        proof {
            assert(s.take(i + 1).drop_last() =~= s.take(i as int));
            assert(s.take(i + 1).last() == s[i as int]);
            assert(s[i as int] == aux_model(es@[i as int]));
        }
        let l: u64 = match &es[i] {
            AuxEntry::ExecFilename(s) => u64_of_usize(s.len()),
            AuxEntry::Platform(s) => u64_of_usize(s.len()),
            AuxEntry::Random(_, _) => 16,
            _ => 0,
        };
        let extra: u64 = match &es[i] {
            AuxEntry::ExecFilename(_) => 1,
            AuxEntry::Platform(_) => 1,
            _ => 0,
        };
        let acc1 = match acc.checked_add(l) {
            Some(a) => a,
            None => {
                proof {
                    lemma_aux_blobs_take_le(s, i + 1);
                }
                return None;
            },
        };
        acc = match acc1.checked_add(extra) {
            Some(a) => a,
            None => {
                proof {
                    lemma_aux_blobs_take_le(s, i + 1);
                }
                return None;
            },
        };
        i = i + 1;
    }
    proof {
        assert(s.take(n as int) =~= s);
    }
    Some(acc)
}

/// Widen a length to 64 bits; lossless on every supported platform.
fn u64_of_usize(n: usize) -> (r: u64)
    ensures
        r == n,
{
    n as u64
}

/// The startup vector under construction: argument strings, environment
/// strings and auxiliary entries, appended in stages and finalized into the
/// byte-exact stack content.
pub struct VectorBuilder {
    /// Argument strings, in order.
    pub args: Vec<Vec<u8>>,
    /// Environment strings, in order.
    pub envs: Vec<Vec<u8>>,
    /// Auxiliary entries, in order.
    pub auxv: Vec<AuxEntry>,
}

/// The finalized startup vector: the byte content of the stack region from
/// the stack pointer up to the region's top, and the stack pointer itself.
pub struct FinalizedStack {
    /// Region content from `sp` (inclusive) to the region top.
    pub bytes: Vec<u8>,
    /// The initial stack pointer handed to the payload.
    pub sp: u64,
}

impl VectorBuilder {
    /// The argument strings as sequences.
    pub open spec fn args_view(self) -> Seq<Seq<u8>> {
        self.args.deep_view()
    }

    /// The environment strings as sequences.
    pub open spec fn envs_view(self) -> Seq<Seq<u8>> {
        self.envs.deep_view()
    }

    /// The auxiliary entries as key/value models.
    pub open spec fn aux_view(self) -> Seq<(u64, AuxValue)> {
        self.auxv@.map_values(|e: AuxEntry| aux_model(e))
    }

    /// An empty builder.
    pub fn new() -> (b: VectorBuilder)
        ensures
            b.args_view() == Seq::<Seq<u8>>::empty(),
            b.envs_view() == Seq::<Seq<u8>>::empty(),
            b.aux_view() == Seq::<(u64, AuxValue)>::empty(),
    {
        let b = VectorBuilder { args: Vec::new(), envs: Vec::new(), auxv: Vec::new() };
        proof {
            assert(b.args_view() =~= Seq::<Seq<u8>>::empty());
            assert(b.envs_view() =~= Seq::<Seq<u8>>::empty());
            assert(b.aux_view() =~= Seq::<(u64, AuxValue)>::empty());
        }
        b
    }

    /// Append an argument string.
    pub fn push_arg(&mut self, a: Vec<u8>)
        ensures
            final(self).args_view() == old(self).args_view().push(a@),
            final(self).envs_view() == old(self).envs_view(),
            final(self).aux_view() == old(self).aux_view(),
    {
        self.args.push(a);
        proof {
            assert(self.args_view() =~~= old(self).args_view().push(a@));
        }
    }

    /// Append an environment string.
    pub fn push_env(&mut self, e: Vec<u8>)
        ensures
            final(self).envs_view() == old(self).envs_view().push(e@),
            final(self).args_view() == old(self).args_view(),
            final(self).aux_view() == old(self).aux_view(),
    {
        self.envs.push(e);
        proof {
            assert(self.envs_view() =~~= old(self).envs_view().push(e@));
        }
    }

    /// Append an auxiliary entry.
    pub fn push_aux(&mut self, e: AuxEntry)
        ensures
            final(self).aux_view() == old(self).aux_view().push(aux_model(e)),
            final(self).args_view() == old(self).args_view(),
            final(self).envs_view() == old(self).envs_view(),
    {
        self.auxv.push(e);
        proof {
            assert(self.aux_view() =~= old(self).aux_view().push(aux_model(e)));
        }
    }

    /// Table size in bytes and total footprint of the vector, or `None`
    /// when the footprint cannot be represented in 64 bits.
    fn footprint(&self) -> (t: Option<(u64, u64)>)
        ensures
            t matches Some(p) ==> p.0 == 8 * table_words(
                self.args_view(),
                self.envs_view(),
                self.aux_view(),
            ) && p.1 == used_len(self.args_view(), self.envs_view(), self.aux_view()),
            t is None ==> used_len(self.args_view(), self.envs_view(), self.aux_view())
                > u64::MAX,
    {
        let ghost av = self.args_view();
        let ghost ev = self.envs_view();
        let ghost xv = self.aux_view();
        proof {
            assert(av.len() == self.args@.len());
            assert(ev.len() == self.envs@.len());
            assert(xv.len() == self.auxv@.len());
        }
        let sa = match cstrs_total(&self.args) {
            Some(v) => v,
            None => {
                return None;
            },
        };
        let se = match cstrs_total(&self.envs) {
            Some(v) => v,
            None => {
                return None;
            },
        };
        let sx = match aux_blobs_total(&self.auxv) {
            Some(v) => v,
            None => {
                return None;
            },
        };
        let wa = u64_of_usize(self.args.len());
        let we = u64_of_usize(self.envs.len());
        let wx = u64_of_usize(self.auxv.len());
        let x2 = match wx.checked_mul(2) {
            Some(v) => v,
            None => {
                return None;
            },
        };
        let t1 = match wa.checked_add(we) {
            Some(v) => v,
            None => {
                return None;
            },
        };
        let t2 = match t1.checked_add(x2) {
            Some(v) => v,
            None => {
                return None;
            },
        };
        let tw = match t2.checked_add(5) {
            Some(v) => v,
            None => {
                return None;
            },
        };
        let tb = match tw.checked_mul(8) {
            Some(v) => v,
            None => {
                return None;
            },
        };
        let u1 = match tb.checked_add(sa) {
            Some(v) => v,
            None => {
                return None;
            },
        };
        let u2 = match u1.checked_add(se) {
            Some(v) => v,
            None => {
                return None;
            },
        };
        let used = match u2.checked_add(sx) {
            Some(v) => v,
            None => {
                return None;
            },
        };
        Some((tb, used))
    }

    /// Build the pointer table for a string area starting at `s0`.
    #[verifier::loop_isolation(false)]
    #[verifier::rlimit(60)]
    fn build_table(&self, wa: u64, s0: u64) -> (words: Vec<u64>)
        requires
            wa == self.args@.len(),
            s0 + cstrs(self.args_view()).len() + cstrs(self.envs_view()).len() + aux_blobs(
                self.aux_view(),
            ).len() <= u64::MAX,
        ensures
            words@ == seq![wa] + str_ptrs(self.args_view(), s0 as int) + seq![0u64] + str_ptrs(
                self.envs_view(),
                s0 + cstrs(self.args_view()).len(),
            ) + seq![0u64] + aux_words(
                self.aux_view(),
                s0 + cstrs(self.args_view()).len() + cstrs(self.envs_view()).len(),
            ) + seq![0u64, 0u64],
    {
        let ghost av = self.args_view();
        let ghost ev = self.envs_view();
        let ghost xv = self.aux_view();
        let ghost s0i = s0 as int;
        let ghost e0i = s0i + cstrs(av).len();
        let ghost x0i = e0i + cstrs(ev).len();
        let mut words: Vec<u64> = Vec::new();
        words.push(wa);
        let mut cursor: u64 = s0;
        let mut i: usize = 0;
        proof {
            assert(av.take(0) =~= Seq::<Seq<u8>>::empty());
            assert(words@ =~= seq![wa] + str_ptrs(av.take(0), s0i));
        }
        while i < self.args.len()
            invariant
                0 <= i <= av.len(),
                words@ == seq![wa] + str_ptrs(av.take(i as int), s0i),
                cursor == s0i + cstrs(av.take(i as int)).len(),
                cstrs(av.take(i as int)).len() <= cstrs(av).len(),
            decreases av.len() - i,
        {
            proof {
                lemma_cstrs_take_le(av, i + 1);
                assert(av.take(i + 1).drop_last() =~= av.take(i as int));
                assert(av.take(i + 1).last() == av[i as int]);
                assert(self.args@[i as int]@ == av[i as int]);
            }
            words.push(cursor);
            let l = u64_of_usize(self.args[i].len());
            cursor = cursor + l;
            cursor = cursor + 1;
            i = i + 1;
            proof {
                assert(words@ =~= seq![wa] + str_ptrs(av.take(i as int), s0i));
            }
        }
        proof {
            assert(av.take(av.len() as int) =~= av);
        }
        words.push(0);
        let ghost env_prefix = seq![wa] + str_ptrs(av, s0i) + seq![0u64];
        proof {
            assert(ev.take(0) =~= Seq::<Seq<u8>>::empty());
            assert(words@ =~= env_prefix + str_ptrs(ev.take(0), e0i));
        }
        let mut i: usize = 0;
        while i < self.envs.len()
            invariant
                0 <= i <= ev.len(),
                words@ == env_prefix + str_ptrs(ev.take(i as int), e0i),
                cursor == e0i + cstrs(ev.take(i as int)).len(),
                cstrs(ev.take(i as int)).len() <= cstrs(ev).len(),
            decreases ev.len() - i,
        {
            proof {
                lemma_cstrs_take_le(ev, i + 1);
                assert(ev.take(i + 1).drop_last() =~= ev.take(i as int));
                assert(ev.take(i + 1).last() == ev[i as int]);
                assert(self.envs@[i as int]@ == ev[i as int]);
            }
            words.push(cursor);
            let l = u64_of_usize(self.envs[i].len());
            cursor = cursor + l;
            cursor = cursor + 1;
            i = i + 1;
            proof {
                assert(words@ =~= env_prefix + str_ptrs(ev.take(i as int), e0i));
            }
        }
        proof {
            assert(ev.take(ev.len() as int) =~= ev);
        }
        words.push(0);
        let ghost aux_prefix = env_prefix + str_ptrs(ev, e0i) + seq![0u64];
        proof {
            assert(xv.take(0) =~= Seq::<(u64, AuxValue)>::empty());
            assert(words@ =~= aux_prefix + aux_words(xv.take(0), x0i));
        }
        let mut i: usize = 0;
        while i < self.auxv.len()
            invariant
                0 <= i <= xv.len(),
                words@ == aux_prefix + aux_words(xv.take(i as int), x0i),
                cursor == x0i + aux_blobs(xv.take(i as int)).len(),
                aux_blobs(xv.take(i as int)).len() <= aux_blobs(xv).len(),
            decreases xv.len() - i,
        {
            proof {
                lemma_aux_blobs_take_le(xv, i + 1);
                assert(xv.take(i + 1).drop_last() =~= xv.take(i as int));
                assert(xv.take(i + 1).last() == xv[i as int]);
                assert(xv[i as int] == aux_model(self.auxv@[i as int]));
            }
            match &self.auxv[i] {
                AuxEntry::ExecFilename(s) => {
                    words.push(AT_EXECFN);
                    words.push(cursor);
                    let l = u64_of_usize(s.len());
                    cursor = cursor + l;
                    cursor = cursor + 1;
                },
                AuxEntry::Platform(s) => {
                    words.push(AT_PLATFORM);
                    words.push(cursor);
                    let l = u64_of_usize(s.len());
                    cursor = cursor + l;
                    cursor = cursor + 1;
                },
                AuxEntry::Random(_, _) => {
                    words.push(AT_RANDOM);
                    words.push(cursor);
                    cursor = cursor + 16;
                },
                AuxEntry::Uid(v) => {
                    words.push(AT_UID);
                    words.push(*v);
                },
                AuxEntry::EUid(v) => {
                    words.push(AT_EUID);
                    words.push(*v);
                },
                AuxEntry::Gid(v) => {
                    words.push(AT_GID);
                    words.push(*v);
                },
                AuxEntry::EGid(v) => {
                    words.push(AT_EGID);
                    words.push(*v);
                },
                AuxEntry::PageSize(v) => {
                    words.push(AT_PAGESZ);
                    words.push(*v);
                },
                AuxEntry::Secure(b) => {
                    words.push(AT_SECURE);
                    words.push(
                        if *b {
                            1
                        } else {
                            0
                        },
                    );
                },
                AuxEntry::ClockTick(v) => {
                    words.push(AT_CLKTCK);
                    words.push(*v);
                },
                AuxEntry::Flags(v) => {
                    words.push(AT_FLAGS);
                    words.push(*v);
                },
                AuxEntry::PHdr(v) => {
                    words.push(AT_PHDR);
                    words.push(*v);
                },
                AuxEntry::PHent(v) => {
                    words.push(AT_PHENT);
                    words.push(*v);
                },
                AuxEntry::PHnum(v) => {
                    words.push(AT_PHNUM);
                    words.push(*v);
                },
                AuxEntry::HwCap(v) => {
                    words.push(AT_HWCAP);
                    words.push(*v);
                },
                AuxEntry::HwCap2(v) => {
                    words.push(AT_HWCAP2);
                    words.push(*v);
                },
                AuxEntry::Entry(v) => {
                    words.push(AT_ENTRY);
                    words.push(*v);
                },
            }
            i = i + 1;
            proof {
                assert(words@ =~= aux_prefix + aux_words(xv.take(i as int), x0i));
            }
        }
        proof {
            assert(xv.take(xv.len() as int) =~= xv);
        }
        words.push(0);
        words.push(0);
        proof {
            assert(words@ =~= seq![wa] + str_ptrs(av, s0i) + seq![0u64] + str_ptrs(ev, e0i)
                + seq![0u64] + aux_words(xv, x0i) + seq![0u64, 0u64]);
        }
        words
    }

    /// Serialize the table words, the string area and `rem` zero bytes of
    /// padding.
    #[verifier::loop_isolation(false)]
    #[verifier::rlimit(60)]
    fn serialize_content(&self, words: &Vec<u64>, rem: u64) -> (bytes: Vec<u8>)
        ensures
            bytes@ == words_bytes(words@) + cstrs(self.args_view()) + cstrs(self.envs_view())
                + aux_blobs(self.aux_view()) + Seq::new(rem as nat, |j: int| 0u8),
    {
        let ghost av = self.args_view();
        let ghost ev = self.envs_view();
        let ghost xv = self.aux_view();
        let mut bytes: Vec<u8> = Vec::new();
        let wn = words.len();
        let mut i: usize = 0;
        proof {
            assert(words@.take(0) =~= Seq::<u64>::empty());
        }
        while i < wn
            invariant
                0 <= i <= wn,
                bytes@ == words_bytes(words@.take(i as int)),
            decreases wn - i,
        {
            proof {
                assert(words@.take(i + 1).drop_last() =~= words@.take(i as int));
                assert(words@.take(i + 1).last() == words@[i as int]);
            }
            push_le64(&mut bytes, words[i]);
            i = i + 1;
        }
        proof {
            assert(words@.take(wn as int) =~= words@);
        }
        let ghost table_bytes = words_bytes(words@);
        let mut i: usize = 0;
        proof {
            assert(av.take(0) =~= Seq::<Seq<u8>>::empty());
            assert(bytes@ =~= table_bytes + cstrs(av.take(0)));
        }
        while i < self.args.len()
            invariant
                0 <= i <= av.len(),
                bytes@ == table_bytes + cstrs(av.take(i as int)),
            decreases av.len() - i,
        {
            proof {
                assert(av.take(i + 1).drop_last() =~= av.take(i as int));
                assert(av.take(i + 1).last() == av[i as int]);
                assert(self.args@[i as int]@ == av[i as int]);
            }
            push_cstr(&mut bytes, &self.args[i]);
            i = i + 1;
            proof {
                assert(bytes@ =~= table_bytes + cstrs(av.take(i as int)));
            }
        }
        proof {
            assert(av.take(av.len() as int) =~= av);
        }
        let mut i: usize = 0;
        proof {
            assert(ev.take(0) =~= Seq::<Seq<u8>>::empty());
            assert(bytes@ =~= table_bytes + cstrs(av) + cstrs(ev.take(0)));
        }
        while i < self.envs.len()
            invariant
                0 <= i <= ev.len(),
                bytes@ == table_bytes + cstrs(av) + cstrs(ev.take(i as int)),
            decreases ev.len() - i,
        {
            proof {
                assert(ev.take(i + 1).drop_last() =~= ev.take(i as int));
                assert(ev.take(i + 1).last() == ev[i as int]);
                assert(self.envs@[i as int]@ == ev[i as int]);
            }
            push_cstr(&mut bytes, &self.envs[i]);
            i = i + 1;
            proof {
                assert(bytes@ =~= table_bytes + cstrs(av) + cstrs(ev.take(i as int)));
            }
        }
        proof {
            assert(ev.take(ev.len() as int) =~= ev);
        }
        let mut i: usize = 0;
        proof {
            assert(xv.take(0) =~= Seq::<(u64, AuxValue)>::empty());
            assert(bytes@ =~= table_bytes + cstrs(av) + cstrs(ev) + aux_blobs(xv.take(0)));
        }
        while i < self.auxv.len()
            invariant
                0 <= i <= xv.len(),
                bytes@ == table_bytes + cstrs(av) + cstrs(ev) + aux_blobs(xv.take(i as int)),
            decreases xv.len() - i,
        {
            proof {
                assert(xv.take(i + 1).drop_last() =~= xv.take(i as int));
                assert(xv.take(i + 1).last() == xv[i as int]);
                assert(xv[i as int] == aux_model(self.auxv@[i as int]));
            }
            match &self.auxv[i] {
                AuxEntry::ExecFilename(s) => {
                    push_cstr(&mut bytes, s);
                },
                AuxEntry::Platform(s) => {
                    push_cstr(&mut bytes, s);
                },
                AuxEntry::Random(lo, hi) => {
                    push_le64(&mut bytes, *lo);
                    push_le64(&mut bytes, *hi);
                },
                _ => {},
            }
            i = i + 1;
            proof {
                assert(bytes@ =~= table_bytes + cstrs(av) + cstrs(ev) + aux_blobs(
                    xv.take(i as int),
                ));
            }
        }
        proof {
            assert(xv.take(xv.len() as int) =~= xv);
        }
        let ghost strings_done = table_bytes + cstrs(av) + cstrs(ev) + aux_blobs(xv);
        let mut k: u64 = 0;
        proof {
            assert(Seq::new(0nat, |j: int| 0u8) =~= Seq::<u8>::empty());
            assert(bytes@ =~= strings_done + Seq::new(0nat, |j: int| 0u8));
        }
        while k < rem
            invariant
                0 <= k <= rem,
                bytes@ == strings_done + Seq::new(k as nat, |j: int| 0u8),
            decreases rem - k,
        {
            bytes.push(0);
            k = k + 1;
            proof {
                assert(Seq::new(k as nat, |j: int| 0u8) =~= Seq::new(
                    (k - 1) as nat,
                    |j: int| 0u8,
                ).push(0u8));
                assert(bytes@ =~= strings_done + Seq::new(k as nat, |j: int| 0u8));
            }
        }
        bytes
    }

    /// Serialize the vector into the top of the stack region
    /// `[base, base + cap)`.
    ///
    /// Succeeds exactly when the vector fits the region; the result is the
    /// byte-exact content from the returned stack pointer to the region top,
    /// a deterministic function of the builder's content and the region.
    #[verifier::rlimit(60)]
    pub fn finalize(&self, base: u64, cap: u64) -> (r: Result<FinalizedStack, BootFault>)
        requires
            base % 16 == 0,
            base + cap <= u64::MAX,
        ensures
            r is Ok <==> used_len(self.args_view(), self.envs_view(), self.aux_view()) <= cap,
            r matches Ok(fs) ==> {
                &&& fs.sp == base + start_off(
                    self.args_view(),
                    self.envs_view(),
                    self.aux_view(),
                    cap,
                )
                &&& fs.bytes@ == sv_bytes(
                    self.args_view(),
                    self.envs_view(),
                    self.aux_view(),
                    base,
                    cap,
                )
                &&& fs.sp % 16 == 0
                &&& base <= fs.sp
                &&& fs.sp + fs.bytes@.len() == base + cap
            },
            r is Err ==> r == Err::<FinalizedStack, BootFault>(BootFault::StackExhausted),
    {
        let ghost av = self.args_view();
        let ghost ev = self.envs_view();
        let ghost xv = self.aux_view();
        let (tb, used) = match self.footprint() {
            Some(p) => p,
            None => {
                return Err(BootFault::StackExhausted);
            },
        };
        if used > cap {
            return Err(BootFault::StackExhausted);
        }
        // Place the vector at the top, stack pointer on a 16-byte boundary.
        let room = cap - used;
        let rem = room % 16;
        let so = room - rem;
        proof {
            vstd::arithmetic::div_mod::lemma_fundamental_div_mod(room as int, 16);
            assert(so == 16 * (room as int / 16));
            assert(so == start_off(av, ev, xv, cap));
            vstd::arithmetic::div_mod::lemma_mod_multiples_basic(room as int / 16, 16);
            assert(so % 16 == 0);
            vstd::arithmetic::div_mod::lemma_add_mod_noop(base as int, so as int, 16);
        }
        let t0 = base + so;
        let s0 = t0 + tb;
        assert(s0 + cstrs(av).len() + cstrs(ev).len() + aux_blobs(xv).len() == base + so + used);
        let wa = u64_of_usize(self.args.len());
        proof {
            assert(av.len() == self.args@.len());
        }
        let words = self.build_table(wa, s0);
        let bytes = self.serialize_content(&words, rem);
        proof {
            assert(words@ =~= sv_words(av, ev, xv, base, cap));
            assert(bytes@ =~= sv_bytes(av, ev, xv, base, cap));
            lemma_words_bytes_len(words@);
            lemma_str_ptrs_len(av, s0 as int);
            lemma_str_ptrs_len(ev, s0 + cstrs(av).len());
            lemma_aux_words_len(xv, s0 + cstrs(av).len() + cstrs(ev).len());
            assert(bytes@.len() == 8 * table_words(av, ev, xv) + strings_len(av, ev, xv) + rem);
        }
        Ok(FinalizedStack { bytes, sp: t0 })
    }
}

} // verus!
