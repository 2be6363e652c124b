use vstd::prelude::*;

verus! {

/// The standard base64 alphabet of RFC 4648: `A`-`Z`, `a`-`z`, `0`-`9`, `+`, `/`.
pub open spec fn standard_alphabet() -> Seq<char> {
    seq![
        'A', 'B', 'C', 'D', 'E', 'F', 'G', 'H', 'I', 'J', 'K', 'L', 'M', 'N', 'O', 'P',
        'Q', 'R', 'S', 'T', 'U', 'V', 'W', 'X', 'Y', 'Z', 'a', 'b', 'c', 'd', 'e', 'f',
        'g', 'h', 'i', 'j', 'k', 'l', 'm', 'n', 'o', 'p', 'q', 'r', 's', 't', 'u', 'v',
        'w', 'x', 'y', 'z', '0', '1', '2', '3', '4', '5', '6', '7', '8', '9', '+', '/',
    ]
}

/// The URL-safe base64 alphabet of RFC 4648: as the standard one, with `-` and `_`
/// in place of `+` and `/`.
pub open spec fn url_safe_alphabet() -> Seq<char> {
    seq![
        'A', 'B', 'C', 'D', 'E', 'F', 'G', 'H', 'I', 'J', 'K', 'L', 'M', 'N', 'O', 'P',
        'Q', 'R', 'S', 'T', 'U', 'V', 'W', 'X', 'Y', 'Z', 'a', 'b', 'c', 'd', 'e', 'f',
        'g', 'h', 'i', 'j', 'k', 'l', 'm', 'n', 'o', 'p', 'q', 'r', 's', 't', 'u', 'v',
        'w', 'x', 'y', 'z', '0', '1', '2', '3', '4', '5', '6', '7', '8', '9', '-', '_',
    ]
}

/// The base64 text of `data` over `alphabet` (RFC 4648): each group of three bytes
/// gives four characters, each for six bits, high bits first; a last group of one or
/// two bytes gives two or three characters, its missing low bits being zero, followed
/// by as many `=` as make four when `pad` is set.
pub open spec fn base64_encode(alphabet: Seq<char>, pad: bool, data: Seq<u8>) -> Seq<char>
    decreases data.len(),
{
    if data.len() >= 3 {
        seq![
            alphabet[(data[0] / 4) as int],
            alphabet[(data[0] % 4) * 16 + data[1] / 16],
            alphabet[(data[1] % 16) * 4 + data[2] / 64],
            alphabet[(data[2] % 64) as int],
        ] + base64_encode(alphabet, pad, data.skip(3))
    } else if data.len() == 2 {
        seq![
            alphabet[(data[0] / 4) as int],
            alphabet[(data[0] % 4) * 16 + data[1] / 16],
            alphabet[(data[1] % 16) * 4],
        ] + if pad {
            seq!['=']
        } else {
            Seq::<char>::empty()
        }
    } else if data.len() == 1 {
        seq![alphabet[(data[0] / 4) as int], alphabet[(data[0] % 4) * 16]] + if pad {
            seq!['=', '=']
        } else {
            Seq::<char>::empty()
        }
    } else {
        Seq::<char>::empty()
    }
}

/// The URL-safe base64 text of a byte string, without `=` padding.
pub open spec fn base64_url_unpadded(data: Seq<u8>) -> Seq<char> {
    base64_encode(url_safe_alphabet(), false, data)
}

/// The standard base64 text of a byte string, with `=` padding.
pub open spec fn base64_standard(data: Seq<u8>) -> Seq<char> {
    base64_encode(standard_alphabet(), true, data)
}

/// The length of base64 text: four characters for each full group of three bytes,
/// and for a last partial group four when padded, else one more than its bytes.
pub open spec fn base64_len(pad: bool, n: nat) -> nat {
    4 * (n / 3) + if n % 3 == 0 {
        0
    } else if pad {
        4
    } else {
        n % 3 + 1
    }
}

/// Base64 text has the length `base64_len` gives, and each of its characters is
/// one of the alphabet's or the padding `=`, which appears only when `pad` is set
/// and only after the full groups.
pub proof fn base64_encode_shape(alphabet: Seq<char>, pad: bool, data: Seq<u8>)
    requires
        alphabet.len() == 64,
    ensures
        base64_encode(alphabet, pad, data).len() == base64_len(pad, data.len()),
        forall|i: int|
            0 <= i < base64_encode(alphabet, pad, data).len() ==> {
                let c = #[trigger] base64_encode(alphabet, pad, data)[i];
                alphabet.contains(c) || (pad && c == '=')
            },
        forall|i: int|
            0 <= i < 4 * (data.len() / 3) ==> alphabet.contains(
                #[trigger] base64_encode(alphabet, pad, data)[i],
            ),
    decreases data.len(),
{
    let e = base64_encode(alphabet, pad, data);
    if data.len() >= 3 {
        let rest = data.skip(3);
        base64_encode_shape(alphabet, pad, rest);
        let head = seq![
            alphabet[(data[0] / 4) as int],
            alphabet[(data[0] % 4) * 16 + data[1] / 16],
            alphabet[(data[1] % 16) * 4 + data[2] / 64],
            alphabet[(data[2] % 64) as int],
        ];
        assert(e == head + base64_encode(alphabet, pad, rest));
        assert((data.len() as nat) / 3 == (rest.len() as nat) / 3 + 1);
        assert((data.len() as nat) % 3 == (rest.len() as nat) % 3);
        assert(alphabet.contains(head[0]));
        assert(alphabet.contains(head[1]));
        assert(alphabet.contains(head[2]));
        assert(alphabet.contains(head[3]));
        assert forall|i: int| 0 <= i < e.len() implies {
            let c = #[trigger] e[i];
            alphabet.contains(c) || (pad && c == '=')
        } by {
            if i >= 4 {
                assert(e[i] == base64_encode(alphabet, pad, rest)[i - 4]);
            }
        }
        assert forall|i: int| 0 <= i < 4 * (data.len() / 3) implies alphabet.contains(#[trigger] e[i]) by {
            if i >= 4 {
                assert(e[i] == base64_encode(alphabet, pad, rest)[i - 4]);
            }
        }
    } else if data.len() == 2 {
        assert(alphabet.contains(alphabet[(data[0] / 4) as int]));
        assert(alphabet.contains(alphabet[(data[0] % 4) * 16 + data[1] / 16]));
        assert(alphabet.contains(alphabet[(data[1] % 16) * 4]));
    } else if data.len() == 1 {
        assert(alphabet.contains(alphabet[(data[0] / 4) as int]));
        assert(alphabet.contains(alphabet[(data[0] % 4) * 16]));
    }
}

} // verus!
