//! A summary of an ELF file: its symbols, architecture and word size.
use vstd::prelude::*;
use vstd::string::StringExecFns;
use std::collections::HashMap;

verus! {

/// Error of reading an ELF file.
#[derive(Debug)]
pub enum Error {
    GoblinError(goblin::error::Error),
    ElfParsingError(String),
}

/// A machine architecture.
#[derive(Clone, Debug)]
pub enum Arch {
    AMD64,
    I386,
    AARCH64,
    ARM,
    RISCV,
}

/// The summary of an ELF file.
#[derive(Clone)]
pub struct Elf {
    pub symbols: HashMap<String, u64>,
    pub arch: Arch,
    pub bits: u64,
    pub bytes: u64,
}

/// What the parse of an ELF image yields, when it succeeds: `e_machine`,
/// the class byte of `e_ident`, and each symbol's name (when the string table
/// holds one at its offset) and value, in table order.
pub uninterp spec fn elf_parse(data: Seq<u8>) -> Option<(u16, u8, Seq<(Option<Seq<char>>, u64)>)>;

/// A parsed symbol as plain values.
pub open spec fn symbol_view(s: (Option<String>, u64)) -> (Option<Seq<char>>, u64) {
    (
        match s.0 {
            Some(n) => Some(n@),
            None => None,
        },
        s.1,
    )
}

/// Relies on `goblin::elf::Elf::parse`, read with `Strtab::get_at` for
/// the symbol names: the header's machine and class byte and the symbol
/// table, all determined by the bytes alone.
#[verifier::external_body]
fn parse_elf(data: &[u8]) -> (r: Result<(u16, u8, Vec<(Option<String>, u64)>), goblin::error::Error>)
    ensures
        r is Ok <==> elf_parse(data@) is Some,
        r matches Ok(t) ==> elf_parse(data@) == Some((t.0, t.1, t.2@.map_values(|s| symbol_view(s)))),
{
    let elf = goblin::elf::Elf::parse(data)?;
    let syms = elf.syms.iter().map(|s| (elf.strtab.get_at(s.st_name).map(|n| n.to_string()), s.st_value)).collect();
    Ok((elf.header.e_machine, elf.header.e_ident[goblin::elf::header::EI_CLASS], syms))
}

/// The architecture of an `e_machine` value.
pub open spec fn arch_spec(e_machine: u16) -> Option<Arch> {
    if e_machine == 3 {
        Some(Arch::I386)
    } else if e_machine == 40 {
        Some(Arch::ARM)
    } else if e_machine == 62 {
        Some(Arch::AMD64)
    } else if e_machine == 183 {
        Some(Arch::AARCH64)
    } else if e_machine == 243 {
        Some(Arch::RISCV)
    } else {
        None
    }
}

/// The architecture of an `e_machine` value, when it is one of the five known.
pub fn arch_of(e_machine: u16) -> (r: Option<Arch>)
    ensures
        r == arch_spec(e_machine),
{
    match e_machine {
        3 => Some(Arch::I386),
        40 => Some(Arch::ARM),
        62 => Some(Arch::AMD64),
        183 => Some(Arch::AARCH64),
        243 => Some(Arch::RISCV),
        _ => None,
    }
}

/// The decimal digits of `n` as text.
pub open spec fn decimal_text(n: nat) -> Seq<char>
    decreases n,
{
    if n < 10 {
        seq![digit_char(n)]
    } else {
        decimal_text(n / 10).push(digit_char(n % 10))
    }
}

/// The character of a decimal digit.
pub open spec fn digit_char(d: nat) -> char {
    if d == 0 { '0' } else if d == 1 { '1' } else if d == 2 { '2' } else if d == 3 { '3' }
    else if d == 4 { '4' } else if d == 5 { '5' } else if d == 6 { '6' } else if d == 7 { '7' }
    else if d == 8 { '8' } else { '9' }
}

fn digit_str(d: u64) -> (r: &'static str)
    requires
        d < 10,
    ensures
        r@ == seq![digit_char(d as nat)],
{
    proof {
        reveal_strlit("0");
        reveal_strlit("1");
        reveal_strlit("2");
        reveal_strlit("3");
        reveal_strlit("4");
        reveal_strlit("5");
        reveal_strlit("6");
        reveal_strlit("7");
        reveal_strlit("8");
        reveal_strlit("9");
    }
    match d {
        0 => "0",
        1 => "1",
        2 => "2",
        3 => "3",
        4 => "4",
        5 => "5",
        6 => "6",
        7 => "7",
        8 => "8",
        _ => "9",
    }
}

fn append_decimal(s: &mut String, n: u64)
    ensures
        final(s)@ == old(s)@ + decimal_text(n as nat),
    decreases n,
{
    if n >= 10 {
        append_decimal(s, n / 10);
    }
    s.append(digit_str(n % 10));
    proof {
        if n >= 10 {
            assert(old(s)@ + decimal_text(n as nat) =~= old(s)@ + decimal_text((n / 10) as nat) + seq![digit_char((n % 10) as nat)]);
        } else {
            assert(old(s)@ + decimal_text(n as nat) =~= old(s)@ + seq![digit_char((n % 10) as nat)]);
        }
    }
}

/// The symbols kept in the summary: those with a readable name and a
/// non-zero value, in table order.
pub open spec fn kept(syms: Seq<(Option<Seq<char>>, u64)>) -> Seq<(Seq<char>, u64)>
    decreases syms.len(),
{
    if syms.len() == 0 {
        Seq::empty()
    } else {
        let rest = kept(syms.drop_last());
        match syms.last() {
            (Some(n), v) => if v != 0 {
                rest.push((n, v))
            } else {
                rest
            },
            (None, _) => rest,
        }
    }
}

/// Keeps the symbols that have a readable name and a non-zero value.
pub fn kept_symbols(syms: Vec<(Option<String>, u64)>) -> (r: Vec<(String, u64)>)
    ensures
        r@.map_values(|p: (String, u64)| (p.0@, p.1)) == kept(syms@.map_values(|s| symbol_view(s))),
{
    let ghost sv = syms@.map_values(|s| symbol_view(s));
    let total = syms.len();
    let mut out: Vec<(String, u64)> = Vec::new();
    let mut syms = syms;
    let mut rev: Vec<(Option<String>, u64)> = Vec::new();
    while syms.len() > 0
        invariant
            rev@.len() + syms@.len() == sv.len(),
            forall|i: int| 0 <= i < syms@.len() ==> symbol_view(#[trigger] syms@[i]) == sv[i],
            forall|i: int| 0 <= i < rev@.len() ==> symbol_view(#[trigger] rev@[i]) == sv[sv.len() - 1 - i],
        decreases syms@.len(),
    {
        let s = syms.pop().unwrap();
        rev.push(s);
    }
    let mut i: usize = 0;
    while rev.len() > 0
        invariant
            rev@.len() + i == sv.len(),
            sv.len() == total,
            forall|j: int| 0 <= j < rev@.len() ==> symbol_view(#[trigger] rev@[j]) == sv[sv.len() - 1 - j],
            out@.map_values(|p: (String, u64)| (p.0@, p.1)) == kept(sv.subrange(0, i as int)),
        decreases rev@.len(),
    {
        let s = rev.pop().unwrap();
        let ghost before = out@;
        proof {
            assert(sv.subrange(0, i + 1).drop_last() =~= sv.subrange(0, i as int));
            assert(symbol_view(s) == sv[i as int]);
        }
        let (name, value) = s;
        if let Some(n) = name {
            if value != 0 {
                out.push((n, value));
                assert(out@.map_values(|p: (String, u64)| (p.0@, p.1)) =~= before.map_values(|p: (String, u64)| (p.0@, p.1)).push((n@, value)));
            }
        }
        i = i + 1;
    }
    assert(sv.subrange(0, sv.len() as int) =~= sv);
    out
}

impl Elf {
    /// Summarises the ELF image `data`: parse failures, unknown machines and
    /// unknown classes are errors.
    pub fn new(data: &[u8]) -> (r: Result<Elf, Error>)
        ensures
            match elf_parse(data@) {
                None => r matches Err(Error::GoblinError(_)),
                Some((m, c, _)) => match arch_spec(m) {
                    None => r matches Err(Error::ElfParsingError(msg))
                        && msg@ == "Unsupported Architecture "@ + decimal_text(m as nat),
                    Some(a) => if c == 1 {
                        r matches Ok(e) && e.arch == a && e.bits == 32 && e.bytes == 4
                    } else if c == 2 {
                        r matches Ok(e) && e.arch == a && e.bits == 64 && e.bytes == 8
                    } else {
                        r matches Err(Error::ElfParsingError(msg)) && msg@ == "Invalid bitness in Elf Header"@
                    },
                },
            },
    {
        let (e_machine, class, syms) = match parse_elf(data) {
            Ok(t) => t,
            Err(e) => return Err(Error::GoblinError(e)),
        };
        let arch = match arch_of(e_machine) {
            Some(a) => a,
            None => {
                let mut msg = String::from_str("Unsupported Architecture ");
                append_decimal(&mut msg, e_machine as u64);
                return Err(Error::ElfParsingError(msg));
            },
        };
        let (bits, bytes): (u64, u64) = if class == 1 {
            (32, 4)
        } else if class == 2 {
            (64, 8)
        } else {
            return Err(Error::ElfParsingError(String::from_str("Invalid bitness in Elf Header")));
        };
        let kept = kept_symbols(syms);
        let mut symbols: HashMap<String, u64> = HashMap::new();
        let mut kept = kept;
        while kept.len() > 0
            decreases kept@.len(),
        {
            let (name, value) = kept.pop().unwrap();
            if !symbols.contains_key(&name) {
                symbols.insert(name, value);
            }
        }
        Ok(Elf { symbols, arch, bits, bytes })
    }
}

} // verus!
