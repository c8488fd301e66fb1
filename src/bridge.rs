//! Line framing of the serial bridge, which relays JSON-RPC requests to the
//! agent over a serial link, one request or response per line.

use vstd::prelude::*;

verus! {

/// The bytes written for one message: the payload and a line feed.
pub fn write_line(payload: &[u8]) -> (r: Vec<u8>)
    ensures
        r@ == payload@.push(10u8),
{
    let mut out: Vec<u8> = Vec::new();
    let mut i: usize = 0;
    while i < payload.len()
        invariant
            i <= payload@.len(),
            out@ == payload@.subrange(0, i as int),
        decreases payload@.len() - i,
    {
        out.push(payload[i]);
        proof {
            assert(payload@.subrange(0, i + 1) =~= payload@.subrange(0, i as int).push(payload@[i as int]));
        }
        i = i + 1;
    }
    out.push(10);
    proof {
        assert(payload@.subrange(0, payload@.len() as int) =~= payload@);
    }
    out
}

/// Whether a byte is kept in a line read back: neither line feed nor
/// carriage return.
pub open spec fn kept_in_line(b: u8) -> bool {
    b != 10 && b != 13
}

/// The bytes of a line without line feeds and carriage returns.
pub open spec fn stripped(line: Seq<u8>) -> Seq<u8> {
    line.filter(|b: u8| kept_in_line(b))
}

/// Whether `pos` is the first line feed of `bytes`.
pub open spec fn first_line_feed(bytes: Seq<u8>, pos: int) -> bool {
    0 <= pos < bytes.len() && bytes[pos] == 10 && forall|j: int| 0 <= j < pos ==> bytes[j] != 10
}

/// Takes the first complete line out of the bytes received so far: when
/// they hold a line feed, everything up to and including the first one
/// leaves `pending` and comes back without line feeds and carriage returns;
/// otherwise nothing changes and more bytes must be read.
pub fn read_line(pending: &mut Vec<u8>) -> (r: Option<Vec<u8>>)
    ensures
        (forall|j: int| 0 <= j < old(pending)@.len() ==> old(pending)@[j] != 10) ==> r is None && final(pending)@ == old(pending)@,
        forall|pos: int| #[trigger] first_line_feed(old(pending)@, pos) ==> {
            &&& r matches Some(line)
            &&& line@ == stripped(old(pending)@.subrange(0, pos + 1))
            &&& final(pending)@ == old(pending)@.subrange(pos + 1, old(pending)@.len() as int)
        },
{
    let n = pending.len();
    let mut pos: usize = 0;
    while pos < n && pending[pos] != 10
        invariant
            n == pending@.len(),
            pos <= n,
            forall|j: int| 0 <= j < pos ==> pending@[j] != 10,
        decreases n - pos,
    {
        pos = pos + 1;
    }
    if pos == n {
        return None;
    }
    let ghost before = pending@;
    let mut line: Vec<u8> = Vec::new();
    let mut i: usize = 0;
    proof {
        assert(before.subrange(0, 0).filter(|b: u8| kept_in_line(b)) =~= Seq::<u8>::empty()) by {
            reveal(Seq::filter);
        }
    }
    while i <= pos
        invariant
            pending@ == before,
            n == before.len(),
            pos < n,
            i <= pos + 1,
            line@ == stripped(before.subrange(0, i as int)),
        decreases pos + 1 - i,
    {
        let b = pending[i];
        proof {
            assert(before.subrange(0, i + 1) =~= before.subrange(0, i as int).push(b));
            before.subrange(0, i as int).lemma_filter_push(b, |b: u8| kept_in_line(b));
        }
        if b != 10 && b != 13 {
            line.push(b);
        }
        i = i + 1;
    }
    let mut rest: Vec<u8> = Vec::new();
    let mut k: usize = pos + 1;
    while k < n
        invariant
            pending@ == before,
            n == before.len(),
            pos < n,
            pos + 1 <= k <= n,
            rest@ == before.subrange(pos + 1, k as int),
        decreases n - k,
    {
        rest.push(pending[k]);
        proof {
            assert(before.subrange(pos + 1, k + 1) =~= before.subrange(pos + 1, k as int).push(before[k as int]));
        }
        k = k + 1;
    }
    *pending = rest;
    proof {
        assert forall|p: int| #[trigger] first_line_feed(before, p) implies p == pos by {
            if p < pos {
                assert(before[p] != 10);
            } else if p > pos {
                assert(before[pos as int] == 10);
            }
        }
    }
    Some(line)
}

/// The label of the serial link for the start-up message: `unix:` and the
/// socket path when one is set, else `tcp:` and the address when one is
/// set, else the default socket.
pub fn serial_label(socket_path: Option<&str>, tcp_addr: Option<&str>) -> (r: String)
    ensures
        socket_path matches Some(p) ==> r@ == "unix:"@ + p@,
        socket_path is None ==> (tcp_addr matches Some(a) ==> r@ == "tcp:"@ + a@),
        socket_path is None && tcp_addr is None ==> r@ == "unix:/tmp/qemu-agent.sock"@,
{
    match socket_path {
        Some(p) => {
            let mut s = String::from_str("unix:");
            s.append(p);
            s
        },
        None => match tcp_addr {
            Some(a) => {
                let mut s = String::from_str("tcp:");
                s.append(a);
                s
            },
            None => String::from_str("unix:/tmp/qemu-agent.sock"),
        },
    }
}

} // verus!
