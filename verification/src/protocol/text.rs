//! Human-readable renderings of packets and connect results, as used in
//! logs: bytes in lowercase hexadecimal.

use super::{ConnectResult, NiimbotPacket, PacketModel};
use vstd::prelude::*;
use vstd::string::StringExecFns;

verus! {

/// The lowercase hexadecimal digit of `n` (for `n < 16`).
pub open spec fn hex_digit(n: u8) -> char {
    if n == 0 {
        '0'
    } else if n == 1 {
        '1'
    } else if n == 2 {
        '2'
    } else if n == 3 {
        '3'
    } else if n == 4 {
        '4'
    } else if n == 5 {
        '5'
    } else if n == 6 {
        '6'
    } else if n == 7 {
        '7'
    } else if n == 8 {
        '8'
    } else if n == 9 {
        '9'
    } else if n == 10 {
        'a'
    } else if n == 11 {
        'b'
    } else if n == 12 {
        'c'
    } else if n == 13 {
        'd'
    } else if n == 14 {
        'e'
    } else {
        'f'
    }
}

/// A byte as two lowercase hexadecimal digits.
pub open spec fn hex_byte(b: u8) -> Seq<char> {
    seq![hex_digit(b / 16), hex_digit(b % 16)]
}

/// Bytes as two-digit lowercase hexadecimal numbers separated by spaces.
pub open spec fn hex_list(d: Seq<u8>) -> Seq<char>
    decreases d.len(),
{
    if d.len() == 0 {
        Seq::empty()
    } else if d.len() == 1 {
        hex_byte(d[0])
    } else {
        hex_list(d.drop_last()) + seq![' '] + hex_byte(d.last())
    }
}

/// How a packet reads in a log line:
/// `NiimbotPacket { command: 0x4a, data: [04 aa] }`.
pub open spec fn packet_text(p: PacketModel) -> Seq<char> {
    "NiimbotPacket { command: 0x"@ + hex_byte(p.command) + ", data: ["@ + hex_list(p.data)
        + "] }"@
}

/// How a connect result reads: its byte, a dash, and its name.
pub open spec fn connect_result_text(c: ConnectResult) -> Seq<char> {
    match c {
        ConnectResult::Disconnect => "0 - Disconnect"@,
        ConnectResult::Connected => "1 - Connected"@,
        ConnectResult::ConnectedNew => "2 - ConnectedNew"@,
        ConnectResult::ConnectedV3 => "3 - ConnectedV3"@,
    }
}

/// A connect result's text opens with the digit of the byte that carries
/// the result, followed by `" - "`.
pub proof fn lemma_connect_text_shows_byte(c: ConnectResult)
    ensures
        connect_result_text(c).len() > 4,
        connect_result_text(c)[0] == hex_digit(c.wire_byte()),
        connect_result_text(c).subrange(1, 4) == seq![' ', '-', ' '],
{
    reveal_strlit("0 - Disconnect");
    reveal_strlit("1 - Connected");
    reveal_strlit("2 - ConnectedNew");
    reveal_strlit("3 - ConnectedV3");
    assert(connect_result_text(c).subrange(1, 4) =~= seq![' ', '-', ' ']);
}

fn hex_digit_str(n: u8) -> (s: &'static str)
    requires
        n < 16,
    ensures
        s@ == seq![hex_digit(n)],
{
    if n == 0 {
        proof {
            reveal_strlit("0");
        }
        "0"
    } else if n == 1 {
        proof {
            reveal_strlit("1");
        }
        "1"
    } else if n == 2 {
        proof {
            reveal_strlit("2");
        }
        "2"
    } else if n == 3 {
        proof {
            reveal_strlit("3");
        }
        "3"
    } else if n == 4 {
        proof {
            reveal_strlit("4");
        }
        "4"
    } else if n == 5 {
        proof {
            reveal_strlit("5");
        }
        "5"
    } else if n == 6 {
        proof {
            reveal_strlit("6");
        }
        "6"
    } else if n == 7 {
        proof {
            reveal_strlit("7");
        }
        "7"
    } else if n == 8 {
        proof {
            reveal_strlit("8");
        }
        "8"
    } else if n == 9 {
        proof {
            reveal_strlit("9");
        }
        "9"
    } else if n == 10 {
        proof {
            reveal_strlit("a");
        }
        "a"
    } else if n == 11 {
        proof {
            reveal_strlit("b");
        }
        "b"
    } else if n == 12 {
        proof {
            reveal_strlit("c");
        }
        "c"
    } else if n == 13 {
        proof {
            reveal_strlit("d");
        }
        "d"
    } else if n == 14 {
        proof {
            reveal_strlit("e");
        }
        "e"
    } else {
        proof {
            reveal_strlit("f");
        }
        "f"
    }
}

fn push_hex_byte(out: &mut String, b: u8)
    ensures
        final(out)@ == old(out)@ + hex_byte(b),
{
    out.append(hex_digit_str(b / 16));
    out.append(hex_digit_str(b % 16));
    proof {
        assert(final(out)@ =~= old(out)@ + hex_byte(b));
    }
}

impl ConnectResult {
    /// The result as text, e.g. `1 - Connected`.
    pub fn to_string(&self) -> (s: String)
        ensures
            s@ == connect_result_text(*self),
    {
        match self {
            ConnectResult::Disconnect => String::from_str("0 - Disconnect"),
            ConnectResult::Connected => String::from_str("1 - Connected"),
            ConnectResult::ConnectedNew => String::from_str("2 - ConnectedNew"),
            ConnectResult::ConnectedV3 => String::from_str("3 - ConnectedV3"),
        }
    }
}

impl NiimbotPacket {
    /// The packet as text, e.g. `NiimbotPacket { command: 0x4a, data: [04] }`.
    pub fn to_string(&self) -> (s: String)
        ensures
            s@ == packet_text(self@),
    {
        let mut out: String = String::from_str("NiimbotPacket { command: 0x");
        push_hex_byte(&mut out, self.command());
        out.append(", data: [");
        let ghost head = out@;
        let data: &[u8] = self.data();
        let mut i: usize = 0;
        while i < data.len()
            invariant
                i <= data@.len(),
                out@ == head + hex_list(data@.take(i as int)),
            decreases data@.len() - i,
        {
            if i > 0 {
                out.append(" ");
                proof {
                    reveal_strlit(" ");
                }
            }
            push_hex_byte(&mut out, data[i]);
            proof {
                let t = data@.take(i + 1);
                assert(t.drop_last() =~= data@.take(i as int));
                assert(out@ =~= head + hex_list(t));
            }
            i = i + 1;
        }
        out.append("] }");
        proof {
            assert(data@.take(i as int) =~= data@);
            assert(out@ =~= packet_text(self@));
        }
        out
    }
}

} // verus!
