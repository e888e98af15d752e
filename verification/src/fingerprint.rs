//! Content fingerprinting: a message body's archive name is a pure
//! function of its bytes, the lowercase hexadecimal SHA-256 digest.

use vstd::prelude::*;
use vstd::string::StringExecFns;

use sha2::Digest;

verus! {

/// The SHA-256 digest of a byte sequence; what the digest is on given
/// bytes is left to the hash library, but it depends on the bytes alone.
pub uninterp spec fn sha256_of(bytes: Seq<u8>) -> Seq<u8>;

/// The lowercase hexadecimal digit for a value below sixteen.
pub open spec fn hex_digit(n: u8) -> char {
    if n == 0 {
        '0'
    } else if n == 1 {
        '1'
    } else if n == 2 {
        '2'
    } else if n == 3 {
        '3'
    } else if n == 4 {
        '4'
    } else if n == 5 {
        '5'
    } else if n == 6 {
        '6'
    } else if n == 7 {
        '7'
    } else if n == 8 {
        '8'
    } else if n == 9 {
        '9'
    } else if n == 10 {
        'a'
    } else if n == 11 {
        'b'
    } else if n == 12 {
        'c'
    } else if n == 13 {
        'd'
    } else if n == 14 {
        'e'
    } else {
        'f'
    }
}

/// Lowercase hexadecimal encoding: two digits per byte, high nibble first.
pub open spec fn hex_of(bytes: Seq<u8>) -> Seq<char>
    decreases bytes.len(),
{
    if bytes.len() == 0 {
        Seq::empty()
    } else {
        hex_of(bytes.drop_last()) + seq![
            hex_digit(bytes.last() / 16),
            hex_digit(bytes.last() % 16),
        ]
    }
}

/// A body's fingerprint: the lowercase hexadecimal SHA-256 digest.
pub open spec fn fingerprint_of(body: Seq<u8>) -> Seq<char> {
    hex_of(sha256_of(body))
}

/// The archive entry path of a body filed under a folder:
/// `<folder>/<fingerprint>.eml`.
pub open spec fn entry_path_of(folder: Seq<char>, body: Seq<u8>) -> Seq<char> {
    folder + "/"@ + fingerprint_of(body) + ".eml"@
}

pub proof fn lemma_hex_of_len(bytes: Seq<u8>)
    ensures
        hex_of(bytes).len() == 2 * bytes.len(),
    decreases bytes.len(),
{
    if bytes.len() > 0 {
        lemma_hex_of_len(bytes.drop_last());
    }
}

fn push_hex_digit(out: &mut String, nibble: u8)
    requires
        nibble < 16,
    ensures
        final (out)@ == old(out)@.push(hex_digit(nibble)),
{
    proof {
        reveal_strlit("0");
        reveal_strlit("1");
        reveal_strlit("2");
        reveal_strlit("3");
        reveal_strlit("4");
        reveal_strlit("5");
        reveal_strlit("6");
        reveal_strlit("7");
        reveal_strlit("8");
        reveal_strlit("9");
        reveal_strlit("a");
        reveal_strlit("b");
        reveal_strlit("c");
        reveal_strlit("d");
        reveal_strlit("e");
        reveal_strlit("f");
    }
    if nibble == 0 {
        out.append("0");
    } else if nibble == 1 {
        out.append("1");
    } else if nibble == 2 {
        out.append("2");
    } else if nibble == 3 {
        out.append("3");
    } else if nibble == 4 {
        out.append("4");
    } else if nibble == 5 {
        out.append("5");
    } else if nibble == 6 {
        out.append("6");
    } else if nibble == 7 {
        out.append("7");
    } else if nibble == 8 {
        out.append("8");
    } else if nibble == 9 {
        out.append("9");
    } else if nibble == 10 {
        out.append("a");
    } else if nibble == 11 {
        out.append("b");
    } else if nibble == 12 {
        out.append("c");
    } else if nibble == 13 {
        out.append("d");
    } else if nibble == 14 {
        out.append("e");
    } else {
        out.append("f");
    }
    proof {
        assert(final (out)@ =~= old(out)@.push(hex_digit(nibble)));
    }
}

proof fn lemma_hex_of_take_step(bytes: Seq<u8>, i: int)
    requires
        0 <= i < bytes.len(),
    ensures
        hex_of(bytes.take(i + 1)) == hex_of(bytes.take(i)) + seq![
            hex_digit(bytes[i] / 16),
            hex_digit(bytes[i] % 16),
        ],
{
    assert(bytes.take(i + 1).drop_last() =~= bytes.take(i));
    assert(bytes.take(i + 1).last() == bytes[i]);
}

/// Lowercase hexadecimal encoding of a byte vector, two digits per
/// byte, high nibble first.
fn hex_encode(bytes: &Vec<u8>) -> (encoded: String)
    ensures
        encoded@ == hex_of(bytes@),
{
    let mut out = String::new();
    let mut i: usize = 0;
    proof {
        assert(bytes@.take(0) =~= Seq::<u8>::empty());
        assert(out@ =~= hex_of(bytes@.take(0)));
    }
    while i < bytes.len()
        invariant
            i <= bytes@.len(),
            out@ == hex_of(bytes@.take(i as int)),
        decreases bytes@.len() - i,
    {
        let byte = bytes[i];
        push_hex_digit(&mut out, byte / 16);
        push_hex_digit(&mut out, byte % 16);
        proof {
            lemma_hex_of_take_step(bytes@, i as int);
            assert(out@ =~= hex_of(bytes@.take(i + 1)));
        }
        i = i + 1;
    }
    proof {
        assert(bytes@.take(bytes@.len() as int) =~= bytes@);
    }
    out
}

/// Relies on sha2::Sha256 (the SHA-256 hash): the 32-byte digest is a
/// function of the input bytes alone, the same in every process and on
/// every machine.
#[verifier::external_body]
fn sha256(bytes: &Vec<u8>) -> (digest: Vec<u8>)
    ensures
        digest@ == sha256_of(bytes@),
        digest@.len() == 32,
{
    sha2::Sha256::digest(bytes.as_slice()).to_vec()
}

/// A message body's deterministic identifier: sixty-four lowercase
/// hexadecimal characters of its SHA-256 digest.
pub fn fingerprint(body: &Vec<u8>) -> (name: String)
    ensures
        name@ == fingerprint_of(body@),
        name@.len() == 64,
{
    let digest = sha256(body);
    let encoded = hex_encode(&digest);
    proof {
        lemma_hex_of_len(digest@);
    }
    encoded
}

/// Two calls on equal bodies yield the same fingerprint: the identifier
/// is a function of the body bytes alone.
pub proof fn lemma_fingerprint_deterministic(body_a: Seq<u8>, body_b: Seq<u8>)
    requires
        body_a == body_b,
    ensures
        fingerprint_of(body_a) == fingerprint_of(body_b),
{
}

/// Equal bodies filed under the same folder name get the same entry path:
/// a duplicate body can never create a second distinct entry name.
pub proof fn lemma_entry_path_idempotent(folder: Seq<char>, body_a: Seq<u8>, body_b: Seq<u8>)
    requires
        body_a == body_b,
    ensures
        entry_path_of(folder, body_a) == entry_path_of(folder, body_b),
{
}

/// The archive entry path for a body under a folder, as one string.
pub fn entry_path(folder: &str, body: &Vec<u8>) -> (path: String)
    ensures
        path@ == entry_path_of(folder@, body@),
{
    let name = fingerprint(body);
    let mut path = folder.to_owned();
    path.append("/");
    path.append(name.as_str());
    path.append(".eml");
    proof {
        assert(path@ == entry_path_of(folder@, body@)) by {
            assert(path@ =~= folder@ + "/"@ + fingerprint_of(body@) + ".eml"@);
        }
    }
    path
}

} // verus!
