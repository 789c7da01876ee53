//! Random password generation over a printable character set.  The keyed-hash
//! key generator draws its 32-byte keys from here, so a generated key is
//! itself a human-displayable 32-character string.

use vstd::prelude::*;

verus! {

/// Whether a byte is one of the printable password symbols offered here:
/// `! # $ % & * @ ^ _`.
pub open spec fn is_password_symbol(b: u8) -> bool {
    b == 33 || b == 35 || b == 36 || b == 37 || b == 38 || b == 42 || b == 64 || b == 94 || b == 95
}

/// Whether a byte belongs to one of the selected character classes.
pub open spec fn in_password_classes(
    b: u8,
    uppercase: bool,
    lowercase: bool,
    number: bool,
    symbol: bool,
) -> bool {
    ||| (uppercase && 65 <= b && b <= 90)
    ||| (lowercase && 97 <= b && b <= 122)
    ||| (number && 48 <= b && b <= 57)
    ||| (symbol && is_password_symbol(b))
}

/// Relies on rand's OsRng through Rng::gen_range: an index below the bound,
/// drawn from the operating system's cryptographically secure random source.
#[verifier::external_body]
fn random_below(bound: usize) -> (r: usize)
    requires
        bound > 0,
    ensures
        r < bound,
{
    rand::Rng::gen_range(&mut rand::rngs::OsRng, 0..bound)
}

/// Draws a password of the requested length from the selected character
/// classes; at least one class must be selected or nothing can be drawn.
pub fn process_genpass(
    length: u8,
    uppercase: bool,
    lowercase: bool,
    number: bool,
    symbol: bool,
) -> (r: Result<Vec<u8>, &'static str>)
    ensures
        (uppercase || lowercase || number || symbol) <==> r is Ok,
        r matches Ok(p) ==> p@.len() == length as nat && forall|i: int|
            0 <= i < p@.len() ==> in_password_classes(
                #[trigger] p@[i],
                uppercase,
                lowercase,
                number,
                symbol,
            ),
{
    let mut charset: Vec<u8> = Vec::new();
    if uppercase {
        let mut c: u8 = 65;
        while c <= 90
            invariant
                uppercase,
                65 <= c <= 91,
                c > 65 ==> charset@.len() > 0,
                forall|j: int|
                    0 <= j < charset@.len() ==> in_password_classes(
                        #[trigger] charset@[j],
                        uppercase,
                        lowercase,
                        number,
                        symbol,
                    ),
            decreases 91 - c,
        {
            charset.push(c);
            c = c + 1;
        }
    }
    if lowercase {
        let mut c: u8 = 97;
        while c <= 122
            invariant
                lowercase,
                97 <= c <= 123,
                c > 97 ==> charset@.len() > 0,
                uppercase ==> charset@.len() > 0,
                forall|j: int|
                    0 <= j < charset@.len() ==> in_password_classes(
                        #[trigger] charset@[j],
                        uppercase,
                        lowercase,
                        number,
                        symbol,
                    ),
            decreases 123 - c,
        {
            charset.push(c);
            c = c + 1;
        }
    }
    if number {
        let mut c: u8 = 48;
        while c <= 57
            invariant
                number,
                48 <= c <= 58,
                c > 48 ==> charset@.len() > 0,
                uppercase || lowercase ==> charset@.len() > 0,
                forall|j: int|
                    0 <= j < charset@.len() ==> in_password_classes(
                        #[trigger] charset@[j],
                        uppercase,
                        lowercase,
                        number,
                        symbol,
                    ),
            decreases 58 - c,
        {
            charset.push(c);
            c = c + 1;
        }
    }
    if symbol {
        charset.push(33);
        charset.push(35);
        charset.push(36);
        charset.push(37);
        charset.push(38);
        charset.push(42);
        charset.push(64);
        charset.push(94);
        charset.push(95);
    }
    if charset.len() == 0 {
        return Err("no character class selected");
    }
    let mut pass: Vec<u8> = Vec::new();
    let len = length as usize;
    let mut i: usize = 0;
    while i < len
        invariant
            i <= len,
            pass@.len() == i,
            charset@.len() > 0,
            forall|j: int|
                0 <= j < charset@.len() ==> in_password_classes(
                    #[trigger] charset@[j],
                    uppercase,
                    lowercase,
                    number,
                    symbol,
                ),
            forall|j: int|
                0 <= j < pass@.len() ==> in_password_classes(
                    #[trigger] pass@[j],
                    uppercase,
                    lowercase,
                    number,
                    symbol,
                ),
        decreases len - i,
    {
        let idx = random_below(charset.len());
        pass.push(charset[idx]);
        i = i + 1;
    }
    Ok(pass)
}

} // verus!
