//! The comparisons that find a file at odds with the model, and the text
//! that reports what they found.

use crate::format::dec_digits;
use crate::format::hex_byte;
use crate::format::hex_field;
use crate::format::pad_right;
use crate::format::push_dec;
use crate::format::push_hex_byte;
use crate::format::push_hex_field;
use crate::format::push_text_field;
use crate::lines::Widths;
use vstd::prelude::*;

verus! {

/// The first position below `n` at which `a` and `b` differ, or `n` where
/// they agree below it.
pub open spec fn first_diff(a: Seq<u8>, b: Seq<u8>, n: nat) -> nat
    decreases n,
{
    if n == 0 {
        0
    } else {
        let before = first_diff(a, b, (n - 1) as nat);
        if before < n - 1 {
            before
        } else if a[n - 1] != b[n - 1] {
            (n - 1) as nat
        } else {
            n
        }
    }
}

/// The number of positions below `n` at which `a` and `b` differ.
pub open spec fn count_diff(a: Seq<u8>, b: Seq<u8>, n: nat) -> nat
    decreases n,
{
    if n == 0 {
        0
    } else if a[n - 1] != b[n - 1] {
        count_diff(a, b, (n - 1) as nat) + 1
    } else {
        count_diff(a, b, (n - 1) as nat)
    }
}

/// What `first_diff` finds is a position where the two differ, with none
/// before it; it finds none exactly where the two agree below `n`.
pub proof fn lemma_first_diff(a: Seq<u8>, b: Seq<u8>, n: nat)
    ensures
        first_diff(a, b, n) <= n,
        forall|j: int| 0 <= j < first_diff(a, b, n) ==> a[j] == b[j],
        first_diff(a, b, n) < n ==> a[first_diff(a, b, n) as int] != b[first_diff(a, b, n) as int],
    decreases n,
{
    if n > 0 {
        lemma_first_diff(a, b, (n - 1) as nat);
    }
}

/// A read that found other bytes than the model expects.
#[derive(Clone, Copy, Debug, PartialEq, Eq, Structural)]
pub struct Miscompare {
    /// Where the read started.
    pub offset: u64,
    /// How many bytes it read.
    pub size: usize,
    /// Where the first wrong byte is.
    pub bad_offset: u64,
    /// The byte expected there.
    pub good: u8,
    /// The byte found there.
    pub bad: u8,
    /// How many bytes of the read are wrong.
    pub damaged: usize,
    /// The number, modulo 256, of the step that may have written the wrong
    /// data, where the data tells.
    pub origin: Option<u8>,
}

/// The step number that wrong data points to: the byte found at the first
/// wrong position if that position is even, else the byte after it; none
/// where that byte is zero or was not read.
pub open spec fn origin_of(found: Seq<u8>, bad_offset: nat, at: nat) -> Option<u8> {
    let k = if bad_offset % 2 == 1 {
        at + 1
    } else {
        at
    };
    if k < found.len() && found[k as int] > 0 {
        Some(found[k as int])
    } else {
        None
    }
}

/// What a comparison reports of `found`, read at `offset`, where the model
/// expects `expected` there: nothing where the two agree.
pub open spec fn miscompare(expected: Seq<u8>, found: Seq<u8>, offset: u64) -> Option<
    Miscompare,
> {
    let at = first_diff(expected, found, found.len());
    if at == found.len() {
        None
    } else {
        Some(
            Miscompare {
                offset,
                size: found.len() as usize,
                bad_offset: (offset + at) as u64,
                good: expected[at as int],
                bad: found[at as int],
                damaged: count_diff(expected, found, found.len()) as usize,
                origin: origin_of(found, (offset + at) as nat, at),
            },
        )
    }
}

/// Compares `found`, read at `offset`, with the bytes that `good` holds
/// from there.
pub fn compare(good: &Vec<u8>, found: &[u8], offset: u64) -> (r: Option<Miscompare>)
    requires
        offset + found@.len() <= good@.len(),
    ensures
        r == miscompare(
            good@.subrange(offset as int, offset + found@.len()),
            found@,
            offset,
        ),
        r is None <==> good@.subrange(offset as int, offset + found@.len()) == found@,
{
    let size = found.len();
    let limit = good.len();
    let base = offset as usize;
    let ghost expected = good@.subrange(offset as int, offset + found@.len());
    let mut first: usize = size;
    let mut damaged: usize = 0;
    let mut i: usize = 0;
    while i < size
        invariant
            i <= size,
            size == found@.len(),
            base == offset,
            limit == good@.len(),
            base + size <= limit,
            expected == good@.subrange(offset as int, offset + found@.len()),
            damaged == count_diff(expected, found@, i as nat),
            damaged <= i,
            first_diff(expected, found@, i as nat) == if first < i {
                first
            } else {
                i
            },
            first < i || first == size,
        decreases size - i,
    {
        if good[base + i] != found[i] {
            if first == size {
                first = i;
            }
            damaged = damaged + 1;
        }
        i = i + 1;
    }
    proof {
        lemma_first_diff(expected, found@, size as nat);
    }
    if first == size {
        assert(expected =~= found@);
        return None;
    }
    let bad_offset = offset + first as u64;
    let k = if bad_offset % 2 == 1 {
        first + 1
    } else {
        first
    };
    let origin = if k < size && found[k] > 0 {
        Some(found[k])
    } else {
        None
    };
    Some(
        Miscompare {
            offset,
            size,
            bad_offset,
            good: good[base + first],
            bad: found[first],
            damaged,
            origin,
        },
    )
}

/// The lines that report a miscompare.
pub open spec fn miscompare_text(w: Widths, m: Miscompare) -> Seq<Seq<char>> {
    seq![
        "miscompare: offset= "@ + hex_field(m.offset as nat, 0) + ", size = "@ + hex_field(
            m.size as nat,
            0,
        ),
        pad_right("OFFSET"@, w.offset as nat) + " GOOD  BAD  "@ + pad_right(
            "RANGE"@,
            w.size as nat,
        ),
        hex_field(m.bad_offset as nat, w.offset as nat) + " "@ + hex_byte(m.good) + " "@
            + hex_byte(m.bad) + " "@ + hex_field(m.damaged as nat, w.size as nat),
        match m.origin {
            Some(step) => "Step# (mod 256) for a misdirected write may be "@ + dec_digits(
                step as nat,
            ),
            None => "Step# for the bad data is unknown; check HOLE and EXTEND ops"@,
        },
    ]
}

impl Miscompare {
    /// The lines that report this miscompare.
    pub fn report(&self, w: Widths) -> (lines: Vec<String>)
        ensures
            lines@.len() == 4,
            forall|i: int| 0 <= i < 4 ==> (#[trigger] lines@[i])@ == miscompare_text(w, *self)[i],
    {
        let mut lines: Vec<String> = Vec::new();
        let mut first = String::new();
        first.append("miscompare: offset= ");
        push_hex_field(&mut first, self.offset, 0);
        first.append(", size = ");
        push_hex_field(&mut first, self.size as u64, 0);
        assert(first@ =~= miscompare_text(w, *self)[0]);
        lines.push(first);
        let mut head = String::new();
        push_text_field(&mut head, "OFFSET", w.offset);
        head.append(" GOOD  BAD  ");
        push_text_field(&mut head, "RANGE", w.size);
        assert(head@ =~= miscompare_text(w, *self)[1]);
        lines.push(head);
        let mut row = String::new();
        push_hex_field(&mut row, self.bad_offset, w.offset);
        row.append(" ");
        push_hex_byte(&mut row, self.good);
        row.append(" ");
        push_hex_byte(&mut row, self.bad);
        row.append(" ");
        push_hex_field(&mut row, self.damaged as u64, w.size);
        assert(row@ =~= miscompare_text(w, *self)[2]);
        lines.push(row);
        let mut hint = String::new();
        match self.origin {
            Some(step) => {
                hint.append("Step# (mod 256) for a misdirected write may be ");
                push_dec(&mut hint, step as u64);
            },
            None => {
                hint.append("Step# for the bad data is unknown; check HOLE and EXTEND ops");
            },
        }
        assert(hint@ =~= miscompare_text(w, *self)[3]);
        lines.push(hint);
        lines
    }
}

/// A transfer that moved fewer bytes than it was asked to.
#[derive(Clone, Copy, Debug, PartialEq, Eq, Structural)]
pub enum ShortIo {
    /// A read returned fewer bytes than asked for.
    Read { done: usize, asked: usize },
    /// A write took another number of bytes than asked for.
    Write { done: usize, asked: usize },
    /// A zero-copy transfer moved another number of bytes than asked for.
    Sendfile { done: usize, asked: usize },
}

/// The line that reports a short transfer.
pub open spec fn short_io_text(e: ShortIo) -> Seq<char> {
    match e {
        ShortIo::Read { done, asked } => "short read: "@ + hex_field(done as nat, 0)
            + " bytes instead of "@ + hex_field(asked as nat, 0),
        ShortIo::Write { done, asked } => "short write: "@ + hex_field(done as nat, 0)
            + " bytes instead of "@ + hex_field(asked as nat, 0),
        ShortIo::Sendfile { done, asked } => "Short read with sendfile: "@ + hex_field(
            done as nat,
            0,
        ) + " bytes instead of "@ + hex_field(asked as nat, 0),
    }
}

impl ShortIo {
    /// The line that reports this transfer.
    pub fn message(&self) -> (s: String)
        ensures
            s@ == short_io_text(*self),
    {
        let mut out = String::new();
        match *self {
            ShortIo::Read { done, asked } => {
                out.append("short read: ");
                push_hex_field(&mut out, done as u64, 0);
                out.append(" bytes instead of ");
                push_hex_field(&mut out, asked as u64, 0);
            },
            ShortIo::Write { done, asked } => {
                out.append("short write: ");
                push_hex_field(&mut out, done as u64, 0);
                out.append(" bytes instead of ");
                push_hex_field(&mut out, asked as u64, 0);
            },
            ShortIo::Sendfile { done, asked } => {
                out.append("Short read with sendfile: ");
                push_hex_field(&mut out, done as u64, 0);
                out.append(" bytes instead of ");
                push_hex_field(&mut out, asked as u64, 0);
            },
        }
        assert(out@ =~= short_io_text(*self));
        out
    }
}

/// Whether a read of `asked` bytes that returned `done` bytes fell short: it
/// did where it returned fewer.
pub fn check_read(done: usize, asked: usize) -> (r: Option<ShortIo>)
    ensures
        r == if done < asked {
            Some(ShortIo::Read { done, asked })
        } else {
            None
        },
{
    if done < asked {
        Some(ShortIo::Read { done, asked })
    } else {
        None
    }
}

/// Whether a write of `asked` bytes that took `done` bytes fell short: it
/// did where the two differ.
pub fn check_write(done: usize, asked: usize) -> (r: Option<ShortIo>)
    ensures
        r == if done != asked {
            Some(ShortIo::Write { done, asked })
        } else {
            None
        },
{
    if done != asked {
        Some(ShortIo::Write { done, asked })
    } else {
        None
    }
}

/// Whether a zero-copy transfer of `asked` bytes that moved `done` bytes
/// fell short: it did where the two differ.
pub fn check_sendfile(done: usize, asked: usize) -> (r: Option<ShortIo>)
    ensures
        r == if done != asked {
            Some(ShortIo::Sendfile { done, asked })
        } else {
            None
        },
{
    if done != asked {
        Some(ShortIo::Sendfile { done, asked })
    } else {
        None
    }
}

/// A file whose size is not the one that the model expects.
#[derive(Clone, Copy, Debug, PartialEq, Eq, Structural)]
pub struct SizeError {
    pub expected: u64,
    pub by_stat: u64,
    pub by_seek: u64,
}

/// What a check of the file's size reports: nothing where size checks are
/// off, or where the size by its metadata and the size by seeking to its end
/// both are the expected one.
pub open spec fn size_error(size_checks: bool, expected: u64, by_stat: u64, by_seek: u64)
    -> Option<SizeError> {
    if size_checks && (by_stat != expected || by_seek != expected) {
        Some(SizeError { expected, by_stat, by_seek })
    } else {
        None
    }
}

/// The line that reports a size error.
pub open spec fn size_error_text(e: SizeError) -> Seq<char> {
    "Size error: expected "@ + hex_field(e.expected as nat, 0) + " but found "@ + hex_field(
        e.by_stat as nat,
        0,
    ) + " by stat and "@ + hex_field(e.by_seek as nat, 0) + " by seek"@
}

impl SizeError {
    /// The line that reports this error.
    pub fn message(&self) -> (s: String)
        ensures
            s@ == size_error_text(*self),
    {
        let mut out = String::new();
        out.append("Size error: expected ");
        push_hex_field(&mut out, self.expected, 0);
        out.append(" but found ");
        push_hex_field(&mut out, self.by_stat, 0);
        out.append(" by stat and ");
        push_hex_field(&mut out, self.by_seek, 0);
        out.append(" by seek");
        assert(out@ =~= size_error_text(*self));
        out
    }
}

/// A mapped page that holds other bytes than zero beyond the end of the
/// file.
#[derive(Clone, Copy, Debug, PartialEq, Eq, Structural)]
pub struct EofPageError {
    /// Offset of the file's last byte; zero for a file without bytes.
    pub last: u64,
    /// Where in the page the first such byte is.
    pub page_offset: u64,
    /// That byte.
    pub byte: u8,
}

/// The first position from `from` on at which `page` holds another byte than
/// zero, looking below `n`; `n` where there is none.
pub open spec fn first_nonzero(page: Seq<u8>, from: nat, n: nat) -> nat
    decreases n,
{
    if n <= from {
        n
    } else {
        let before = first_nonzero(page, from, (n - 1) as nat);
        if before < n - 1 {
            before
        } else if page[n - 1] != 0 {
            (n - 1) as nat
        } else {
            n
        }
    }
}

/// What `first_nonzero` finds is a byte other than zero, with only zeros
/// between `from` and it; it finds none exactly where all bytes from `from`
/// on are zero.
pub proof fn lemma_first_nonzero(page: Seq<u8>, from: nat, n: nat)
    requires
        from <= n,
    ensures
        from <= first_nonzero(page, from, n) <= n,
        forall|j: int| from <= j < first_nonzero(page, from, n) ==> page[j] == 0,
        first_nonzero(page, from, n) < n ==> page[first_nonzero(page, from, n) as int] != 0,
    decreases n,
{
    if n > from {
        lemma_first_nonzero(page, from, (n - 1) as nat);
    }
}

/// What a check of the page that holds the end of the file reports, for a
/// file of `file_size` bytes and the bytes `page` of that page: nothing
/// where every byte beyond the end of the file is zero.
pub open spec fn eof_page_error(page: Seq<u8>, file_size: u64) -> Option<EofPageError> {
    let from = (file_size % (page.len() as u64)) as nat;
    let at = first_nonzero(page, from, page.len());
    if at == page.len() {
        None
    } else {
        Some(
            EofPageError {
                last: if file_size > 0 {
                    (file_size - 1) as u64
                } else {
                    0
                },
                page_offset: at as u64,
                byte: page[at as int],
            },
        )
    }
}

/// Checks that the page which holds the end of the file is zero beyond it.
pub fn check_page(page: &[u8], file_size: u64) -> (r: Option<EofPageError>)
    requires
        page@.len() > 0,
    ensures
        r == eof_page_error(page@, file_size),
        r is None <==> forall|j: int|
            file_size % (page@.len() as u64) <= j < page@.len() ==> page@[j] == 0,
{
    let n = page.len();
    let from = (file_size % (n as u64)) as usize;
    let mut i: usize = from;
    while i < n
        invariant
            from <= i <= n,
            n == page@.len(),
            from == file_size % (n as u64),
            first_nonzero(page@, from as nat, i as nat) == i,
        decreases n - i,
    {
        if page[i] != 0 {
            proof {
                lemma_first_nonzero_found(page@, from as nat, i as nat, n as nat);
                lemma_first_nonzero(page@, from as nat, n as nat);
            }
            return Some(
                EofPageError {
                    last: if file_size > 0 {
                        file_size - 1
                    } else {
                        0
                    },
                    page_offset: i as u64,
                    byte: page[i],
                },
            );
        }
        i = i + 1;
    }
    proof {
        lemma_first_nonzero(page@, from as nat, n as nat);
    }
    None
}

/// Where the first byte other than zero is at `at`, it stays the first
/// however far one looks.
pub proof fn lemma_first_nonzero_found(page: Seq<u8>, from: nat, at: nat, n: nat)
    requires
        from <= at < n,
        first_nonzero(page, from, at) == at,
        page[at as int] != 0,
    ensures
        first_nonzero(page, from, n) == at,
    decreases n,
{
    if n > at + 1 {
        lemma_first_nonzero_found(page, from, at, (n - 1) as nat);
    }
}

/// The line that reports bytes beyond the end of the file.
pub open spec fn eof_page_text(e: EofPageError) -> Seq<char> {
    "Mapped non-zero data past EoF ("@ + hex_field(e.last as nat, 0) + ") page offset "@
        + hex_field(e.page_offset as nat, 0) + " is "@ + hex_field(e.byte as nat, 0)
}

impl EofPageError {
    /// The line that reports this error.
    pub fn message(&self) -> (s: String)
        ensures
            s@ == eof_page_text(*self),
    {
        let mut out = String::new();
        out.append("Mapped non-zero data past EoF (");
        push_hex_field(&mut out, self.last, 0);
        out.append(") page offset ");
        push_hex_field(&mut out, self.page_offset, 0);
        out.append(" is ");
        push_hex_field(&mut out, self.byte as u64, 0);
        assert(out@ =~= eof_page_text(*self));
        out
    }
}

} // verus!
