//! Names for the generic parameters of a module's structs.

use vstd::prelude::*;
use vstd::string::*;
use crate::file_format::{CompiledModule, Kind};
use crate::text::{decimal, decimal_is_injective, decimal_is_not_empty, push_decimal};
use crate::Encode;

verus! {

/// How many letters are tried as the name of a generic parameter.
pub const CANDIDATES: usize = 22;

/// The letters that are tried, in this order.
pub open spec fn candidates() -> Seq<Seq<char>> {
    seq![
        "T"@, "G"@, "V"@, "A"@, "B"@, "C"@, "D"@, "F"@, "H"@, "J"@, "K"@, "L"@, "M"@, "N"@, "P"@,
        "Q"@, "R"@, "S"@, "W"@, "X"@, "Y"@, "Z"@,
    ]
}

/// The `i`-th letter that is tried.
pub fn candidate(i: usize) -> (r: &'static str)
    requires
        i < CANDIDATES,
    ensures
        r@ == candidates()[i as int],
{
    match i {
        0 => "T",
        1 => "G",
        2 => "V",
        3 => "A",
        4 => "B",
        5 => "C",
        6 => "D",
        7 => "F",
        8 => "H",
        9 => "J",
        10 => "K",
        11 => "L",
        12 => "M",
        13 => "N",
        14 => "P",
        15 => "Q",
        16 => "R",
        17 => "S",
        18 => "W",
        19 => "X",
        20 => "Y",
        _ => "Z",
    }
}

/// No identifier of the pool is `name`.
pub open spec fn unused(ids: Seq<String>, name: Seq<char>) -> bool {
    forall|j: int| 0 <= j < ids.len() ==> (#[trigger] ids[j])@ != name
}

/// The position of the first letter, from `from` on, that the pool does
/// not hold.
pub open spec fn first_unused(ids: Seq<String>, from: nat) -> Option<nat>
    decreases CANDIDATES - from,
{
    if from >= CANDIDATES {
        None
    } else if unused(ids, candidates()[from as int]) {
        Some(from)
    } else {
        first_unused(ids, from + 1)
    }
}

/// The stem of every generic name of a module.
#[derive(Clone, Copy, Debug)]
pub enum GenericPrefix {
    /// One of the letters.
    SimplePrefix(&'static str),
    /// A made-up name, for a pool that holds every letter.
    Generated(u16),
}

impl GenericPrefix {
    /// The stem as it is written.
    pub open spec fn stem(self) -> Seq<char> {
        match self {
            GenericPrefix::SimplePrefix(p) => p@,
            GenericPrefix::Generated(n) => "TYPE_"@ + decimal(n as nat),
        }
    }
}

/// The stem that a pool gets, where `fallback` is the number for the
/// made-up name.
pub open spec fn stem_for(ids: Seq<String>, fallback: u16) -> Seq<char> {
    match first_unused(ids, 0) {
        Some(i) => candidates()[i as int],
        None => "TYPE_"@ + decimal(fallback as nat),
    }
}

/// The naming scheme of one module's generic parameters.
#[derive(Clone, Copy, Debug)]
pub struct Generics(pub GenericPrefix);

/// `rand::random` at `u16`: any value may come back.
#[verifier::external_body]
fn random_number() -> u16 {
    rand::random()
}

/// Whether the pool holds `name`.
fn pool_holds(ids: &Vec<String>, name: &str) -> (r: bool)
    ensures
        r == !unused(ids@, name@),
{
    let wanted = String::from_str(name);
    let mut j: usize = 0;
    while j < ids.len()
        invariant
            j <= ids.len(),
            wanted@ == name@,
            forall|k: int| 0 <= k < j ==> (#[trigger] ids@[k])@ != name@,
        decreases ids.len() - j,
    {
        if ids[j].eq(&wanted) {
            return true;
        }
        j += 1;
    }
    false
}

impl Generics {
    /// Chooses the stem for a module: the first letter that its
    /// identifier pool does not hold, or, where it holds them all, a
    /// made-up name with a random number.
    pub fn new(module: &CompiledModule) -> (r: Generics)
        ensures
            first_unused(module.identifiers@, 0) is Some <==> r.0 is SimplePrefix,
            r.0 is SimplePrefix ==> unused(module.identifiers@, r.0.stem()),
            exists|n: u16| r.0.stem() == stem_for(module.identifiers@, n),
            first_unused(module.identifiers@, 0) is Some ==> forall|n: u16|
                r.0.stem() == stem_for(module.identifiers@, n),
    {
        let n = random_number();
        Generics::with_fallback(module, n)
    }

    /// Chooses the stem for a module, with `fallback` as the number of
    /// the made-up name.
    pub fn with_fallback(module: &CompiledModule, fallback: u16) -> (r: Generics)
        ensures
            r.0.stem() == stem_for(module.identifiers@, fallback),
            r.0 is SimplePrefix ==> unused(module.identifiers@, r.0.stem()),
            match first_unused(module.identifiers@, 0) {
                Some(i) => r.0 is SimplePrefix,
                None => r.0 == GenericPrefix::Generated(fallback),
            },
    {
        let mut i: usize = 0;
        while i < CANDIDATES
            invariant
                i <= CANDIDATES,
                first_unused(module.identifiers@, 0) == first_unused(module.identifiers@, i as nat),
            decreases CANDIDATES - i,
        {
            let letter = candidate(i);
            if !pool_holds(&module.identifiers, letter) {
                return Generics(GenericPrefix::SimplePrefix(letter));
            }
            i += 1;
        }
        Generics(GenericPrefix::Generated(fallback))
    }

    /// The parameter at position `index`, with its kind.
    pub fn create_generic(&self, index: usize, kind: Kind) -> (r: Generic)
        ensures
            r.prefix == *self,
            r.index == index,
            r.kind == kind,
    {
        Generic { prefix: *self, index, kind }
    }
}

/// The name of the parameter at position `index` under the stem `stem`:
/// the bare stem at 0, then the stem, `_` and the position.
pub open spec fn generic_name(stem: Seq<char>, index: nat) -> Seq<char> {
    if index == 0 {
        stem
    } else {
        stem + "_"@ + decimal(index)
    }
}

/// Under one stem, parameters at different positions have different
/// names.
pub proof fn generic_names_differ(stem: Seq<char>, i: nat, j: nat)
    requires
        i != j,
    ensures
        generic_name(stem, i) != generic_name(stem, j),
{
    reveal_strlit("_");
    decimal_is_not_empty(i);
    decimal_is_not_empty(j);
    let a = generic_name(stem, i);
    let b = generic_name(stem, j);
    if i != 0 && j != 0 {
        if a == b {
            assert(a.skip(stem.len() as int + 1) =~= decimal(i));
            assert(b.skip(stem.len() as int + 1) =~= decimal(j));
            decimal_is_injective(i, j);
        }
    } else if i == 0 {
        assert(b.len() > stem.len());
    } else {
        assert(a.len() > stem.len());
    }
}

/// What a declaration writes behind a parameter's name for its kind.
pub open spec fn kind_suffix(kind: Kind) -> Seq<char> {
    match kind {
        Kind::All => Seq::empty(),
        Kind::Resource => ": resource"@,
        Kind::Copyable => ": copyable"@,
    }
}

/// One generic parameter of a struct.
#[derive(Clone, Copy, Debug)]
pub struct Generic {
    pub prefix: Generics,
    pub index: usize,
    pub kind: Kind,
}

impl Generic {
    /// The parameter as a type expression names it: without its kind.
    pub fn as_name(&self) -> (r: GenericName<'_>)
        ensures
            r.0 == self,
    {
        GenericName(self)
    }
}

impl Encode for Generics {
    open spec fn text(&self, indent: u8) -> Seq<char> {
        self.0.stem()
    }

    fn encode(&self, w: &mut String, indent: u8) {
        match self.0 {
            GenericPrefix::SimplePrefix(p) => {
                w.append(p);
            },
            GenericPrefix::Generated(n) => {
                w.append("TYPE_");
                push_decimal(w, n as usize);
                assert(w@ =~= old(w)@ + self.0.stem());
            },
        }
    }
}

impl Encode for Generic {
    open spec fn text(&self, indent: u8) -> Seq<char> {
        generic_name(self.prefix.0.stem(), self.index as nat) + kind_suffix(self.kind)
    }

    fn encode(&self, w: &mut String, indent: u8) {
        self.as_name().encode(w, indent);
        match self.kind {
            Kind::All => {},
            Kind::Resource => {
                w.append(": resource");
            },
            Kind::Copyable => {
                w.append(": copyable");
            },
        }
        assert(w@ =~= old(w)@ + self.text(indent));
    }
}

/// A generic parameter where a type expression refers to it.
#[derive(Clone, Copy, Debug)]
pub struct GenericName<'a>(pub &'a Generic);

impl<'a> Encode for GenericName<'a> {
    open spec fn text(&self, indent: u8) -> Seq<char> {
        generic_name(self.0.prefix.0.stem(), self.0.index as nat)
    }

    fn encode(&self, w: &mut String, indent: u8) {
        self.0.prefix.encode(w, indent);
        if self.0.index != 0 {
            w.append("_");
            push_decimal(w, self.0.index);
        }
        assert(w@ =~= old(w)@ + self.text(indent));
    }
}

} // verus!
