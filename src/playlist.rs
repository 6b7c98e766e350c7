use vstd::prelude::*;

verus! {

/// The two playlist formats a station may point to.
#[derive(Clone, Copy, PartialEq, Eq, Structural)]
pub enum PlaylistFormat {
    /// One address per line; lines starting with `#` are comments.
    M3u,
    /// `FileN=address` entries.
    Pls,
}

/// The format named by a station's playlist kind: `pls` names the PLS format,
/// every other kind is read as M3U.
pub open spec fn format_of(kind: Seq<char>) -> PlaylistFormat {
    if kind == "pls"@ {
        PlaylistFormat::Pls
    } else {
        PlaylistFormat::M3u
    }
}

pub fn playlist_format(kind: &String) -> (r: PlaylistFormat)
    ensures
        r == format_of(kind@),
{
    let pls = "pls".to_owned();
    proof {
        reveal_strlit("pls");
    }
    if *kind == pls {
        PlaylistFormat::Pls
    } else {
        PlaylistFormat::M3u
    }
}

/// Index of the first `c` in `b` at or after `i`, or the length of `b`.
pub open spec fn index_from(b: Seq<u8>, i: int, c: u8) -> int
    decreases b.len() - i,
{
    if i >= b.len() || i < 0 {
        b.len() as int
    } else if b[i] == c {
        i
    } else {
        index_from(b, i + 1, c)
    }
}

/// A line without the carriage return that ends it, if any.
pub open spec fn strip_cr(l: Seq<u8>) -> Seq<u8> {
    if l.len() > 0 && l.last() == 0x0Du8 {
        l.drop_last()
    } else {
        l
    }
}

/// The stream address that one playlist line gives, if it gives one.
pub open spec fn entry_of_line(format: PlaylistFormat, l: Seq<u8>) -> Option<Seq<u8>> {
    match format {
        PlaylistFormat::M3u => if l.len() > 0 && l[0] != 0x23u8 {
            Some(l)
        } else {
            None
        },
        PlaylistFormat::Pls => {
            let eq = index_from(l, 0, 0x3Du8);
            if l.len() >= 4 && l[0] == 0x46u8 && l[1] == 0x69u8 && l[2] == 0x6Cu8 && l[3] == 0x65u8
                && eq + 1 < l.len() {
                Some(l.subrange(eq + 1, l.len() as int))
            } else {
                None
            }
        },
    }
}

/// The first stream address in the playlist body `b`, reading its lines from
/// position `i` on.
pub open spec fn first_entry_from(format: PlaylistFormat, b: Seq<u8>, i: int) -> Option<Seq<u8>>
    decreases b.len() + 1 - i,
{
    if i >= b.len() || i < 0 {
        None
    } else {
        let e = index_from(b, i, 0x0Au8);
        if e < i || e > b.len() {
            None
        } else {
            match entry_of_line(format, strip_cr(b.subrange(i, e))) {
                Some(v) => Some(v),
                None => first_entry_from(format, b, e + 1),
            }
        }
    }
}

proof fn lemma_index_from_bounds(b: Seq<u8>, i: int, c: u8)
    requires
        0 <= i <= b.len(),
    ensures
        i <= index_from(b, i, c) <= b.len(),
        index_from(b, i, c) < b.len() ==> b[index_from(b, i, c)] == c,
    decreases b.len() - i,
{
    if i < b.len() && b[i] != c {
        lemma_index_from_bounds(b, i + 1, c);
    }
}

fn find_byte(b: &[u8], from: usize, c: u8) -> (r: usize)
    requires
        from <= b@.len(),
    ensures
        r == index_from(b@, from as int, c),
{
    let mut i = from;
    while i < b.len() && b[i] != c
        invariant
            from <= i <= b@.len(),
            index_from(b@, from as int, c) == index_from(b@, i as int, c),
        decreases b@.len() - i,
    {
        i = i + 1;
    }
    i
}

fn copy_range(b: &[u8], start: usize, end: usize) -> (r: Vec<u8>)
    requires
        start <= end <= b@.len(),
    ensures
        r@ == b@.subrange(start as int, end as int),
{
    let mut out: Vec<u8> = Vec::new();
    let mut i = start;
    while i < end
        invariant
            start <= i <= end <= b@.len(),
            out@ == b@.subrange(start as int, i as int),
        decreases end - i,
    {
        out.push(b[i]);
        proof {
            assert(b@.subrange(start as int, i + 1) == b@.subrange(start as int, i as int).push(
                b@[i as int],
            ));
        }
        i = i + 1;
    }
    out
}

fn line_entry(format: PlaylistFormat, b: &[u8], start: usize, end: usize) -> (r: Option<Vec<u8>>)
    requires
        start <= end <= b@.len(),
    ensures
        match entry_of_line(format, strip_cr(b@.subrange(start as int, end as int))) {
            Some(v) => r matches Some(x) && x@ == v,
            None => r is None,
        },
{
    let ghost l = b@.subrange(start as int, end as int);
    let stop = if end > start && b[end - 1] == 0x0Du8 {
        end - 1
    } else {
        end
    };
    assert(strip_cr(l) == b@.subrange(start as int, stop as int));
    let line = copy_range(b, start, stop);
    match format {
        PlaylistFormat::M3u => {
            if line.len() > 0 && line[0] != 0x23u8 {
                Some(line)
            } else {
                None
            }
        },
        PlaylistFormat::Pls => {
            let eq = find_byte(line.as_slice(), 0, 0x3Du8);
            proof {
                lemma_index_from_bounds(line@, 0, 0x3Du8);
            }
            if line.len() >= 4 && line[0] == 0x46u8 && line[1] == 0x69u8 && line[2] == 0x6Cu8
                && line[3] == 0x65u8 && eq < line.len() && eq + 1 < line.len() {
                Some(copy_range(line.as_slice(), eq + 1, line.len()))
            } else {
                None
            }
        },
    }
}

/// The first stream address in a playlist body, in the given format.
pub fn first_entry(format: PlaylistFormat, body: &[u8]) -> (r: Option<Vec<u8>>)
    ensures
        match first_entry_from(format, body@, 0) {
            Some(v) => r matches Some(x) && x@ == v,
            None => r is None,
        },
{
    let mut pos: usize = 0;
    while pos < body.len()
        invariant
            pos <= body@.len(),
            first_entry_from(format, body@, 0) == first_entry_from(format, body@, pos as int),
        decreases body@.len() - pos,
    {
        let e = find_byte(body, pos, 0x0Au8);
        proof {
            lemma_index_from_bounds(body@, pos as int, 0x0Au8);
        }
        let found = line_entry(format, body, pos, e);
        if found.is_some() {
            return found;
        }
        if e >= body.len() {
            assert(first_entry_from(format, body@, e + 1) is None);
            return None;
        }
        pos = e + 1;
    }
    None
}

} // verus!
