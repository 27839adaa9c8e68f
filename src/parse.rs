use vstd::prelude::*;

verus! {

/// ASCII whitespace: space, tab, line feed, vertical tab, form feed, carriage return.
pub open spec fn is_space(b: u8) -> bool {
    b == 0x20u8 || b == 0x09u8 || b == 0x0au8 || b == 0x0bu8 || b == 0x0cu8 || b == 0x0du8
}

/// The cell states of one line of a map: whitespace-separated tokens, each
/// `0` or `1`. `None` when some token is anything else.
pub open spec fn row_of(s: Seq<u8>) -> Option<Seq<i32>>
    decreases s.len(),
{
    if s.len() == 0 {
        Some(Seq::<i32>::empty())
    } else if is_space(s[0]) {
        row_of(s.drop_first())
    } else if (s[0] == 0x30u8 || s[0] == 0x31u8) && (s.len() == 1 || is_space(s[1])) {
        match row_of(s.drop_first()) {
            Some(t) => Some(seq![(s[0] - 0x30u8) as i32].add(t)),
            None => None,
        }
    } else {
        None
    }
}

fn is_space_byte(b: u8) -> (r: bool)
    ensures
        r == is_space(b),
{
    b == 0x20 || b == 0x09 || b == 0x0a || b == 0x0b || b == 0x0c || b == 0x0d
}

/// Reads one line of a map into cell states; `None` when a token is not
/// `0` or `1`.
pub fn parse_row(line: &[u8]) -> (r: Option<Vec<i32>>)
    ensures
        r matches Some(v) ==> row_of(line@) == Some(v@),
        r is None <==> row_of(line@) is None,
{
    let n = line.len();
    let mut out: Vec<i32> = Vec::new();
    let mut i: usize = 0;
    assert(line@.subrange(0, n as int) =~= line@);
    proof {
        if let Some(t) = row_of(line@) {
            assert(out@.add(t) =~= t);
        }
    }
    while i < n
        invariant
            n == line@.len(),
            i <= n,
            row_of(line@) == match row_of(line@.subrange(i as int, n as int)) {
                Some(t) => Some(out@.add(t)),
                None => None,
            },
        decreases n - i,
    {
        let ghost rest = line@.subrange(i as int, n as int);
        assert(rest.drop_first() =~= line@.subrange(i + 1, n as int));
        let b = line[i];
        if is_space_byte(b) {
            i += 1;
        } else if (b == 0x30 || b == 0x31) && (i + 1 == n || is_space_byte(line[i + 1])) {
            let ghost old_out = out@;
            out.push((b - 0x30) as i32);
            proof {
                match row_of(line@.subrange(i + 1, n as int)) {
                    Some(t) => {
                        assert(old_out.add(seq![(b - 0x30u8) as i32].add(t)) =~= out@.add(t));
                    },
                    None => {},
                }
            }
            i += 1;
        } else {
            return None;
        }
    }
    assert(line@.subrange(n as int, n as int) =~= Seq::<u8>::empty());
    assert(out@.add(Seq::<i32>::empty()) =~= out@);
    Some(out)
}

} // verus!
