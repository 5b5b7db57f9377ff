//! The disassembler: the mnemonic text of one raw instruction word, for
//! diagnostics and trace output. Register indices and immediates appear in
//! unpadded lowercase hexadecimal.
use vstd::prelude::*;
use vstd::string::StringExecFns;

use crate::decoder::decode_fields;
use crate::decoder::spec_fields;

verus! {

/// The lowercase hexadecimal digit for a nibble.
pub open spec fn hex_char(d: int) -> char {
    if d == 0 {
        '0'
    } else if d == 1 {
        '1'
    } else if d == 2 {
        '2'
    } else if d == 3 {
        '3'
    } else if d == 4 {
        '4'
    } else if d == 5 {
        '5'
    } else if d == 6 {
        '6'
    } else if d == 7 {
        '7'
    } else if d == 8 {
        '8'
    } else if d == 9 {
        '9'
    } else if d == 10 {
        'a'
    } else if d == 11 {
        'b'
    } else if d == 12 {
        'c'
    } else if d == 13 {
        'd'
    } else if d == 14 {
        'e'
    } else {
        'f'
    }
}

/// A byte in unpadded lowercase hexadecimal: one digit below 0x10, two
/// otherwise.
pub open spec fn hex_byte(b: int) -> Seq<char> {
    if b < 16 {
        seq![hex_char(b)]
    } else {
        seq![hex_char(b / 16), hex_char(b % 16)]
    }
}

/// The text for a word outside the instruction set.
pub open spec fn unsupported_str(byte1: u8, byte2: u8) -> Seq<char> {
    "not supported ("@ + hex_byte(byte1 as int) + hex_byte(byte2 as int) + ")"@
}

/// The mnemonic text of one instruction word.
pub open spec fn spec_instruction_str(byte1: u8, byte2: u8) -> Seq<char> {
    let f = spec_fields(byte1, byte2);
    let x = f.x as int;
    let y = f.y as int;
    let n = f.n as int;
    let kk = byte2 as int;
    if f.class == 0x0 {
        if byte2 == 0xE0 {
            "CLS"@
        } else if byte2 == 0xEE {
            "RET"@
        } else {
            unsupported_str(byte1, byte2)
        }
    } else if f.class == 0x1 {
        "JP "@ + hex_byte(x) + hex_byte(kk)
    } else if f.class == 0x2 {
        "CALL "@ + hex_byte(x) + hex_byte(kk)
    } else if f.class == 0x3 {
        "SE V"@ + hex_byte(x) + ", "@ + hex_byte(kk)
    } else if f.class == 0x4 {
        "SNE V"@ + hex_byte(x) + ", "@ + hex_byte(kk)
    } else if f.class == 0x5 {
        "SE V"@ + hex_byte(x) + ", V"@ + hex_byte(y)
    } else if f.class == 0x6 {
        "LD V"@ + hex_byte(x) + ", "@ + hex_byte(kk)
    } else if f.class == 0x7 {
        "ADD V"@ + hex_byte(x) + ", "@ + hex_byte(kk)
    } else if f.class == 0x8 {
        if f.n == 0x0 {
            "LD V"@ + hex_byte(x) + ", V"@ + hex_byte(y)
        } else if f.n == 0x1 {
            "OR V"@ + hex_byte(x) + ", V"@ + hex_byte(y)
        } else if f.n == 0x2 {
            "AND V"@ + hex_byte(x) + ", V"@ + hex_byte(y)
        } else if f.n == 0x3 {
            "XOR V"@ + hex_byte(x) + ", V"@ + hex_byte(y)
        } else if f.n == 0x4 {
            "ADD V"@ + hex_byte(x) + ", V"@ + hex_byte(y)
        } else if f.n == 0x5 {
            "SUB V"@ + hex_byte(x) + ", V"@ + hex_byte(y)
        } else if f.n == 0x6 {
            "SHR V"@ + hex_byte(x) + " {, V"@ + hex_byte(y) + "}"@
        } else if f.n == 0x7 {
            "SUBN V"@ + hex_byte(x) + ", V"@ + hex_byte(y)
        } else if f.n == 0xE {
            "SHL V"@ + hex_byte(x) + " {, V"@ + hex_byte(y) + "}"@
        } else {
            unsupported_str(byte1, byte2)
        }
    } else if f.class == 0x9 {
        "SNE V"@ + hex_byte(x) + ", "@ + hex_byte(kk)
    } else if f.class == 0xA {
        "LD I, "@ + hex_byte(x) + hex_byte(kk)
    } else if f.class == 0xB {
        "JP V0, "@ + hex_byte(x) + hex_byte(kk)
    } else if f.class == 0xC {
        "RND V"@ + hex_byte(x) + ", "@ + hex_byte(kk)
    } else if f.class == 0xD {
        "DRW V"@ + hex_byte(x) + ", V"@ + hex_byte(y) + ", "@ + hex_byte(n)
    } else if f.class == 0xE {
        if byte2 == 0x9E {
            "SKP V"@ + hex_byte(x)
        } else if byte2 == 0xA1 {
            "SKNP V"@ + hex_byte(x)
        } else {
            unsupported_str(byte1, byte2)
        }
    } else {
        if byte2 == 0x07 {
            "LD V"@ + hex_byte(x) + ", DT"@
        } else if byte2 == 0x0A {
            "LD V"@ + hex_byte(x) + ", K"@
        } else if byte2 == 0x15 {
            "LD DT, V"@ + hex_byte(x)
        } else if byte2 == 0x18 {
            "LD ST, V"@ + hex_byte(x)
        } else if byte2 == 0x1E {
            "ADD I, V"@ + hex_byte(x)
        } else if byte2 == 0x29 {
            "LD F, V"@ + hex_byte(x)
        } else if byte2 == 0x33 {
            "LD B, V"@ + hex_byte(x)
        } else if byte2 == 0x55 {
            "LD [I], V"@ + hex_byte(x)
        } else if byte2 == 0x65 {
            "LD V"@ + hex_byte(x) + ", [I]"@
        } else {
            unsupported_str(byte1, byte2)
        }
    }
}

/// The one-character text of a hexadecimal digit.
fn hex_str(d: u8) -> (r: &'static str)
    requires
        d < 16,
    ensures
        r@ == seq![hex_char(d as int)],
{
    proof {
        reveal_strlit("0");
        reveal_strlit("1");
        reveal_strlit("2");
        reveal_strlit("3");
        reveal_strlit("4");
        reveal_strlit("5");
        reveal_strlit("6");
        reveal_strlit("7");
        reveal_strlit("8");
        reveal_strlit("9");
        reveal_strlit("a");
        reveal_strlit("b");
        reveal_strlit("c");
        reveal_strlit("d");
        reveal_strlit("e");
        reveal_strlit("f");
    }
    match d {
        0 => "0",
        1 => "1",
        2 => "2",
        3 => "3",
        4 => "4",
        5 => "5",
        6 => "6",
        7 => "7",
        8 => "8",
        9 => "9",
        10 => "a",
        11 => "b",
        12 => "c",
        13 => "d",
        14 => "e",
        _ => "f",
    }
}

/// Append a byte in unpadded lowercase hexadecimal.
fn push_hex_byte(out: &mut String, b: u8)
    ensures
        final(out)@ == old(out)@ + hex_byte(b as int),
{
    if b < 16 {
        out.append(hex_str(b));
    } else {
        let hi = b >> 4u8;
        let lo = b & 0x0F;
        proof {
            assert(b >> 4u8 == b / 16 && b & 0x0F == b % 16 && b / 16 < 16) by (bit_vector);
        }
        out.append(hex_str(hi));
        out.append(hex_str(lo));
        proof {
            assert(old(out)@ + seq![hex_char(b as int / 16)] + seq![hex_char(b as int % 16)]
                =~= old(out)@ + hex_byte(b as int));
        }
    }
}

/// The mnemonic text of the instruction word formed by two bytes; a word
/// outside the instruction set is spelled out as unsupported, with its raw
/// bytes.
pub fn fetch_instruction_str(byte1: u8, byte2: u8) -> (r: String)
    ensures
        r@ == spec_instruction_str(byte1, byte2),
{
    let f = decode_fields(byte1, byte2);
    let mut out = String::new();
    match f.class {
        0x0 => match f.kk {
            0xE0 => {
                out.append("CLS");
            },
            0xEE => {
                out.append("RET");
            },
            _ => {
                push_unsupported(&mut out, byte1, byte2);
            },
        },
        0x1 => {
            out.append("JP ");
            push_hex_byte(&mut out, f.x);
            push_hex_byte(&mut out, f.kk);
        },
        0x2 => {
            out.append("CALL ");
            push_hex_byte(&mut out, f.x);
            push_hex_byte(&mut out, f.kk);
        },
        0x3 => {
            out.append("SE V");
            push_hex_byte(&mut out, f.x);
            out.append(", ");
            push_hex_byte(&mut out, f.kk);
        },
        0x4 => {
            out.append("SNE V");
            push_hex_byte(&mut out, f.x);
            out.append(", ");
            push_hex_byte(&mut out, f.kk);
        },
        0x5 => {
            out.append("SE V");
            push_hex_byte(&mut out, f.x);
            out.append(", V");
            push_hex_byte(&mut out, f.y);
        },
        0x6 => {
            out.append("LD V");
            push_hex_byte(&mut out, f.x);
            out.append(", ");
            push_hex_byte(&mut out, f.kk);
        },
        0x7 => {
            out.append("ADD V");
            push_hex_byte(&mut out, f.x);
            out.append(", ");
            push_hex_byte(&mut out, f.kk);
        },
        0x8 => match f.n {
            0x0 => {
                push_reg_pair(&mut out, "LD V", f.x, f.y);
            },
            0x1 => {
                push_reg_pair(&mut out, "OR V", f.x, f.y);
            },
            0x2 => {
                push_reg_pair(&mut out, "AND V", f.x, f.y);
            },
            0x3 => {
                push_reg_pair(&mut out, "XOR V", f.x, f.y);
            },
            0x4 => {
                push_reg_pair(&mut out, "ADD V", f.x, f.y);
            },
            0x5 => {
                push_reg_pair(&mut out, "SUB V", f.x, f.y);
            },
            0x6 => {
                out.append("SHR V");
                push_hex_byte(&mut out, f.x);
                out.append(" {, V");
                push_hex_byte(&mut out, f.y);
                out.append("}");
            },
            0x7 => {
                push_reg_pair(&mut out, "SUBN V", f.x, f.y);
            },
            0xE => {
                out.append("SHL V");
                push_hex_byte(&mut out, f.x);
                out.append(" {, V");
                push_hex_byte(&mut out, f.y);
                out.append("}");
            },
            _ => {
                push_unsupported(&mut out, byte1, byte2);
            },
        },
        0x9 => {
            out.append("SNE V");
            push_hex_byte(&mut out, f.x);
            out.append(", ");
            push_hex_byte(&mut out, f.kk);
        },
        0xA => {
            out.append("LD I, ");
            push_hex_byte(&mut out, f.x);
            push_hex_byte(&mut out, f.kk);
        },
        0xB => {
            out.append("JP V0, ");
            push_hex_byte(&mut out, f.x);
            push_hex_byte(&mut out, f.kk);
        },
        0xC => {
            out.append("RND V");
            push_hex_byte(&mut out, f.x);
            out.append(", ");
            push_hex_byte(&mut out, f.kk);
        },
        0xD => {
            out.append("DRW V");
            push_hex_byte(&mut out, f.x);
            out.append(", V");
            push_hex_byte(&mut out, f.y);
            out.append(", ");
            push_hex_byte(&mut out, f.n);
        },
        0xE => match f.kk {
            0x9E => {
                out.append("SKP V");
                push_hex_byte(&mut out, f.x);
            },
            0xA1 => {
                out.append("SKNP V");
                push_hex_byte(&mut out, f.x);
            },
            _ => {
                push_unsupported(&mut out, byte1, byte2);
            },
        },
        _ => match f.kk {
            0x07 => {
                out.append("LD V");
                push_hex_byte(&mut out, f.x);
                out.append(", DT");
            },
            0x0A => {
                out.append("LD V");
                push_hex_byte(&mut out, f.x);
                out.append(", K");
            },
            0x15 => {
                out.append("LD DT, V");
                push_hex_byte(&mut out, f.x);
            },
            0x18 => {
                out.append("LD ST, V");
                push_hex_byte(&mut out, f.x);
            },
            0x1E => {
                out.append("ADD I, V");
                push_hex_byte(&mut out, f.x);
            },
            0x29 => {
                out.append("LD F, V");
                push_hex_byte(&mut out, f.x);
            },
            0x33 => {
                out.append("LD B, V");
                push_hex_byte(&mut out, f.x);
            },
            0x55 => {
                out.append("LD [I], V");
                push_hex_byte(&mut out, f.x);
            },
            0x65 => {
                out.append("LD V");
                push_hex_byte(&mut out, f.x);
                out.append(", [I]");
            },
            _ => {
                push_unsupported(&mut out, byte1, byte2);
            },
        },
    }
    proof {
        assert(out@ =~= spec_instruction_str(byte1, byte2));
    }
    out
}

/// Append the two-register operand form `<mnemonic>x, Vy`.
fn push_reg_pair(out: &mut String, mnemonic: &str, x: u8, y: u8)
    requires
        x < 16,
        y < 16,
    ensures
        final(out)@ == old(out)@ + mnemonic@ + hex_byte(x as int) + ", V"@ + hex_byte(y as int),
{
    out.append(mnemonic);
    push_hex_byte(out, x);
    out.append(", V");
    push_hex_byte(out, y);
}

/// Append the text for a word outside the instruction set.
fn push_unsupported(out: &mut String, byte1: u8, byte2: u8)
    ensures
        final(out)@ == old(out)@ + unsupported_str(byte1, byte2),
{
    out.append("not supported (");
    push_hex_byte(out, byte1);
    push_hex_byte(out, byte2);
    out.append(")");
}

} // verus!
