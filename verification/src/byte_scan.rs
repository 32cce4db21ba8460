//! Byte-level scanning over request buffers: line and token boundaries,
//! searches, and the end-of-headers test.

use vstd::prelude::*;

verus! {

/// ASCII whitespace as the request-line tokenizer sees it.
pub open spec fn is_space(b: u8) -> bool {
    b == 32 || (9 <= b && b <= 13)
}

/// Index of the first line feed at or after `i`, or the length if none.
pub open spec fn find_line_end(s: Seq<u8>, i: int) -> int
    decreases s.len() - i,
{
    if i < 0 || i >= s.len() {
        s.len() as int
    } else if s[i] == 10 {
        i
    } else {
        find_line_end(s, i + 1)
    }
}

proof fn lemma_find_line_end_at(s: Seq<u8>, i: int, j: int)
    requires
        0 <= i <= j <= s.len(),
        forall|k: int| i <= k < j ==> s[k] != 10,
        j == s.len() || s[j] == 10,
    ensures
        find_line_end(s, i) == j,
    decreases j - i,
{
    if i < j {
        lemma_find_line_end_at(s, i + 1, j);
    }
}

/// Index of the first non-whitespace byte at or after `i`, or the length.
pub open spec fn skip_spaces(s: Seq<u8>, i: int) -> int
    decreases s.len() - i,
{
    if i < 0 || i >= s.len() {
        s.len() as int
    } else if is_space(s[i]) {
        skip_spaces(s, i + 1)
    } else {
        i
    }
}

proof fn lemma_skip_spaces_at(s: Seq<u8>, i: int, j: int)
    requires
        0 <= i <= j <= s.len(),
        forall|k: int| i <= k < j ==> is_space(s[k]),
        j == s.len() || !is_space(s[j]),
    ensures
        skip_spaces(s, i) == j,
    decreases j - i,
{
    if i < j {
        lemma_skip_spaces_at(s, i + 1, j);
    }
}

/// Index of the first whitespace byte at or after `i`, or the length.
pub open spec fn token_end(s: Seq<u8>, i: int) -> int
    decreases s.len() - i,
{
    if i < 0 || i >= s.len() {
        s.len() as int
    } else if is_space(s[i]) {
        i
    } else {
        token_end(s, i + 1)
    }
}

proof fn lemma_token_end_at(s: Seq<u8>, i: int, j: int)
    requires
        0 <= i <= j <= s.len(),
        forall|k: int| i <= k < j ==> !is_space(s[k]),
        j == s.len() || is_space(s[j]),
    ensures
        token_end(s, i) == j,
    decreases j - i,
{
    if i < j {
        lemma_token_end_at(s, i + 1, j);
    }
}

/// Largest index below `i` holding `b`, or -1 if there is none.
pub open spec fn last_index_of(s: Seq<u8>, b: u8, i: int) -> int
    decreases i,
{
    if i <= 0 || i > s.len() {
        -1
    } else if s[i - 1] == b {
        i - 1
    } else {
        last_index_of(s, b, i - 1)
    }
}

proof fn lemma_last_index_of_at(s: Seq<u8>, b: u8, i: int, j: int)
    requires
        -1 <= j < i <= s.len(),
        j >= 0 ==> s[j] == b,
        forall|k: int| j < k < i ==> s[k] != b,
    ensures
        last_index_of(s, b, i) == j,
    decreases i - j,
{
    if j < i - 1 {
        lemma_last_index_of_at(s, b, i - 1, j);
    }
}

/// Two adjacent dots occur somewhere in `s`.
pub open spec fn contains_dotdot(s: Seq<u8>) -> bool {
    exists|i: int| 0 <= i && i + 1 < s.len() && #[trigger] s[i] == 46 && s[i + 1] == 46
}

/// The end-of-headers marker: CRLFCRLF, or a bare LFLF.
pub open spec fn spec_contains_double_newline(s: Seq<u8>) -> bool {
    (exists|i: int|
        0 <= i && i + 3 < s.len() && #[trigger] s[i] == 13 && s[i + 1] == 10 && s[i + 2] == 13
            && s[i + 3] == 10) || (exists|i: int|
        0 <= i && i + 1 < s.len() && #[trigger] s[i] == 10 && s[i + 1] == 10)
}

/// Whether `buffer` already holds a complete header section, that is the
/// marker CRLFCRLF or LFLF.
pub fn contains_double_newline(buffer: &[u8]) -> (r: bool)
    ensures
        r == spec_contains_double_newline(buffer@),
{
    let len = buffer.len();
    if len >= 4 {
        let mut i: usize = 0;
        while i < len - 3
            invariant
                len == buffer@.len(),
                len >= 4,
                i <= len - 3,
                forall|k: int|
                    0 <= k < i ==> !(#[trigger] buffer@[k] == 13 && buffer@[k + 1] == 10
                        && buffer@[k + 2] == 13 && buffer@[k + 3] == 10),
            decreases len - i,
        {
            if buffer[i] == 13 && buffer[i + 1] == 10 && buffer[i + 2] == 13 && buffer[i + 3]
                == 10 {
                return true;
            }
            i += 1;
        }
    }
    if len >= 2 {
        let mut i: usize = 0;
        while i < len - 1
            invariant
                len == buffer@.len(),
                len >= 2,
                i <= len - 1,
                forall|k: int| 0 <= k < i ==> !(#[trigger] buffer@[k] == 10 && buffer@[k + 1] == 10),
            decreases len - i,
        {
            if buffer[i] == 10 && buffer[i + 1] == 10 {
                return true;
            }
            i += 1;
        }
    }
    false
}

/// Copies `data[start..end]` into a fresh vector.
pub fn copy_range(data: &[u8], start: usize, end: usize) -> (r: Vec<u8>)
    requires
        start <= end <= data@.len(),
    ensures
        r@ == data@.subrange(start as int, end as int),
{
    let mut out: Vec<u8> = Vec::new();
    let mut i: usize = start;
    while i < end
        invariant
            start <= i <= end <= data@.len(),
            out@ == data@.subrange(start as int, i as int),
        decreases end - i,
    {
        out.push(data[i]);
        proof {
            assert(out@ =~= data@.subrange(start as int, i + 1 as int));
        }
        i += 1;
    }
    out
}

/// Byte-for-byte equality of two slices.
pub fn bytes_eq(a: &[u8], b: &[u8]) -> (r: bool)
    ensures
        r == (a@ == b@),
{
    if a.len() != b.len() {
        return false;
    }
    let len = a.len();
    let mut i: usize = 0;
    while i < len
        invariant
            len == a@.len() == b@.len(),
            i <= len,
            forall|k: int| 0 <= k < i ==> a@[k] == b@[k],
        decreases len - i,
    {
        if a[i] != b[i] {
            return false;
        }
        i += 1;
    }
    proof {
        assert(a@ =~= b@);
    }
    true
}

/// Equality of `data[start..end]` with `pat`.
pub fn range_eq(data: &[u8], start: usize, end: usize, pat: &[u8]) -> (r: bool)
    requires
        start <= end <= data@.len(),
    ensures
        r == (data@.subrange(start as int, end as int) == pat@),
{
    if end - start != pat.len() {
        proof {
            assert(data@.subrange(start as int, end as int).len() != pat@.len());
        }
        return false;
    }
    let len = pat.len();
    let mut i: usize = 0;
    while i < len
        invariant
            len == pat@.len() == end - start,
            start <= end <= data@.len(),
            i <= len,
            forall|k: int| 0 <= k < i ==> data@[start + k] == pat@[k],
        decreases len - i,
    {
        if data[start + i] != pat[i] {
            proof {
                assert(data@.subrange(start as int, end as int)[i as int] != pat@[i as int]);
            }
            return false;
        }
        i += 1;
    }
    proof {
        assert(data@.subrange(start as int, end as int) =~= pat@);
    }
    true
}

/// First line feed in `data`, or the length if there is none.
pub fn scan_line_end(data: &[u8]) -> (r: usize)
    ensures
        r == find_line_end(data@, 0),
        r <= data@.len(),
{
    let len = data.len();
    let mut i: usize = 0;
    while i < len
        invariant
            len == data@.len(),
            i <= len,
            forall|k: int| 0 <= k < i ==> data@[k] != 10,
        decreases len - i,
    {
        if data[i] == 10 {
            proof {
                lemma_find_line_end_at(data@, 0, i as int);
            }
            return i;
        }
        i += 1;
    }
    proof {
        lemma_find_line_end_at(data@, 0, len as int);
    }
    len
}

/// First non-whitespace index at or after `from`.
pub fn scan_skip_spaces(data: &[u8], from: usize) -> (r: usize)
    requires
        from <= data@.len(),
    ensures
        r == skip_spaces(data@, from as int),
        from <= r <= data@.len(),
        r < data@.len() ==> !is_space(data@[r as int]),
{
    let len = data.len();
    let mut i: usize = from;
    while i < len
        invariant
            len == data@.len(),
            from <= i <= len,
            forall|k: int| from <= k < i ==> is_space(data@[k]),
        decreases len - i,
    {
        let b = data[i];
        if !(b == 32 || (9 <= b && b <= 13)) {
            proof {
                lemma_skip_spaces_at(data@, from as int, i as int);
            }
            return i;
        }
        i += 1;
    }
    proof {
        lemma_skip_spaces_at(data@, from as int, len as int);
    }
    len
}

/// First whitespace index at or after `from`.
pub fn scan_token_end(data: &[u8], from: usize) -> (r: usize)
    requires
        from <= data@.len(),
    ensures
        r == token_end(data@, from as int),
        from <= r <= data@.len(),
        r < data@.len() ==> is_space(data@[r as int]),
        from < data@.len() && !is_space(data@[from as int]) ==> r > from,
{
    let len = data.len();
    let mut i: usize = from;
    while i < len
        invariant
            len == data@.len(),
            from <= i <= len,
            forall|k: int| from <= k < i ==> !is_space(data@[k]),
        decreases len - i,
    {
        let b = data[i];
        if b == 32 || (9 <= b && b <= 13) {
            proof {
                lemma_token_end_at(data@, from as int, i as int);
            }
            return i;
        }
        i += 1;
    }
    proof {
        lemma_token_end_at(data@, from as int, len as int);
    }
    len
}

/// Last occurrence of `target` in `data`, if any.
pub fn rfind_byte(data: &[u8], target: u8) -> (r: Option<usize>)
    ensures
        match r {
            Some(j) => j < data@.len() && j as int == last_index_of(
                data@,
                target,
                data@.len() as int,
            ),
            None => last_index_of(data@, target, data@.len() as int) == -1,
        },
{
    let len = data.len();
    let mut i: usize = len;
    while i > 0
        invariant
            len == data@.len(),
            i <= len,
            forall|k: int| i <= k < len ==> data@[k] != target,
        decreases i,
    {
        if data[i - 1] == target {
            proof {
                lemma_last_index_of_at(data@, target, len as int, i - 1 as int);
            }
            return Some(i - 1);
        }
        i -= 1;
    }
    proof {
        lemma_last_index_of_at(data@, target, len as int, -1);
    }
    None
}

/// Whether `data[start..end]` holds two adjacent dots.
pub fn has_dotdot(data: &[u8], start: usize, end: usize) -> (r: bool)
    requires
        start <= end <= data@.len(),
    ensures
        r == contains_dotdot(data@.subrange(start as int, end as int)),
{
    let ghost sub = data@.subrange(start as int, end as int);
    if end - start < 2 {
        return false;
    }
    let mut i: usize = start;
    while i < end - 1
        invariant
            start <= i,
            i <= end - 1,
            end <= data@.len(),
            end - start >= 2,
            sub == data@.subrange(start as int, end as int),
            forall|k: int| 0 <= k < i - start ==> !(#[trigger] sub[k] == 46 && sub[k + 1] == 46),
        decreases end - i,
    {
        if data[i] == 46 && data[i + 1] == 46 {
            proof {
                assert(sub[i - start] == 46 && sub[i - start + 1] == 46);
            }
            return true;
        }
        i += 1;
    }
    false
}

} // verus!
