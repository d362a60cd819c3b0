//! The symbol resolver surface the engine consumes.
//!
//! Parsing a debug-symbol format is not part of this engine; whoever loads
//! the target fills a [`SymbolTable`] with plain values — function symbols
//! with their address ranges and line-table rows — and the engine resolves
//! addresses to names and source positions, and source positions back to
//! addresses, entirely in verified code.  Lookups resolve to the first
//! matching entry; an address resolves to the line-table row with the
//! greatest address not past it.

use vstd::prelude::*;

use crate::text::str_eq;

verus! {

/// A resolved source position.
#[derive(Clone, PartialEq, Eq, Debug)]
pub struct Location {
    /// Source file name.
    pub file: String,
    /// One-based source line.
    pub line: usize,
}

/// A function symbol: its name and the half-open address range it covers.
#[derive(Clone, PartialEq, Eq, Debug)]
pub struct FunctionSym {
    /// Function name.
    pub name: String,
    /// First address of the function body.
    pub low: usize,
    /// First address past the function body.
    pub high: usize,
}

/// One line-table row: a source position and the address of the first
/// instruction generated for it.
#[derive(Clone, PartialEq, Eq, Debug)]
pub struct LineSym {
    /// Source file name.
    pub file: String,
    /// One-based source line.
    pub line: usize,
    /// Address of the first instruction of that line.
    pub address: usize,
}

/// Whether the function symbol covers the address.
pub open spec fn covers(f: FunctionSym, address: usize) -> bool {
    f.low <= address < f.high
}

/// Address-to-name and address-to-line mapping for one target executable.
pub struct SymbolTable {
    functions: Vec<FunctionSym>,
    lines: Vec<LineSym>,
}

impl SymbolTable {
    /// The function symbols, in the order they were added.
    pub closed spec fn spec_functions(self) -> Seq<FunctionSym> {
        self.functions@
    }

    /// The line-table rows, in the order they were added.
    pub closed spec fn spec_lines(self) -> Seq<LineSym> {
        self.lines@
    }

    /// `i` is the first function symbol covering `address`.
    pub open spec fn is_first_function_match(self, address: usize, i: int) -> bool {
        &&& 0 <= i < self.spec_functions().len()
        &&& covers(self.spec_functions()[i], address)
        &&& forall|j: int| 0 <= j < i ==> !covers(self.spec_functions()[j], address)
    }

    /// Row `i` does not lie past `address`.
    pub open spec fn line_candidate(self, address: usize, i: int) -> bool {
        0 <= i < self.spec_lines().len() && self.spec_lines()[i].address <= address
    }

    /// Row `i` is the row `address` resolves to: not past it, no candidate
    /// row is nearer to it, and among equally near rows it is the first.
    pub open spec fn is_best_line_match(self, address: usize, i: int) -> bool {
        &&& self.line_candidate(address, i)
        &&& forall|j: int|
            self.line_candidate(address, j) ==> self.spec_lines()[j].address
                <= self.spec_lines()[i].address
        &&& forall|j: int|
            0 <= j < i ==> !(self.line_candidate(address, j) && self.spec_lines()[j].address
                == self.spec_lines()[i].address)
    }

    /// `i` is the first row for line `line` of file `file`.
    pub open spec fn is_first_line_number_match(
        self,
        file: Seq<char>,
        line: usize,
        i: int,
    ) -> bool {
        &&& 0 <= i < self.spec_lines().len()
        &&& self.spec_lines()[i].file@ == file
        &&& self.spec_lines()[i].line == line
        &&& forall|j: int|
            0 <= j < i ==> !(self.spec_lines()[j].file@ == file && self.spec_lines()[j].line
                == line)
    }

    /// `name` is exactly what this table resolves `address` to: present
    /// exactly when some symbol covers the address, and then the name of
    /// the first covering symbol.
    pub open spec fn resolved_name_at(self, address: usize, name: Option<String>) -> bool {
        &&& (name is Some <==> exists|i: int|
            0 <= i < self.spec_functions().len() && covers(self.spec_functions()[i], address))
        &&& (name matches Some(n) ==> exists|i: int|
            self.is_first_function_match(address, i) && n@ == self.spec_functions()[i].name@)
    }

    /// `location` is exactly what this table resolves `address` to: present
    /// exactly when some row is not past the address, and then the source
    /// position of the best-matching row.
    pub open spec fn resolved_location_at(self, address: usize, location: Option<Location>) -> bool {
        &&& (location is Some <==> exists|i: int| self.line_candidate(address, i))
        &&& (location matches Some(loc) ==> exists|i: int|
            self.is_best_line_match(address, i) && loc.file@ == self.spec_lines()[i].file@
                && loc.line == self.spec_lines()[i].line)
    }

    /// `i` is the first function symbol named `name`.
    pub open spec fn is_first_name_match(self, name: Seq<char>, i: int) -> bool {
        &&& 0 <= i < self.spec_functions().len()
        &&& self.spec_functions()[i].name@ == name
        &&& forall|j: int| 0 <= j < i ==> self.spec_functions()[j].name@ != name
    }

    /// An empty table: every lookup fails.
    pub fn new() -> (table: Self)
        ensures
            table.spec_functions() == Seq::<FunctionSym>::empty(),
            table.spec_lines() == Seq::<LineSym>::empty(),
    {
        SymbolTable { functions: Vec::new(), lines: Vec::new() }
    }

    /// Add a function symbol.
    pub fn add_function(&mut self, name: String, low: usize, high: usize)
        ensures
            final(self).spec_functions() == old(self).spec_functions().push(
                FunctionSym { name, low, high },
            ),
            final(self).spec_lines() == old(self).spec_lines(),
    {
        self.functions.push(FunctionSym { name, low, high });
    }

    /// Add a line-table row.
    pub fn add_line(&mut self, file: String, line: usize, address: usize)
        ensures
            final(self).spec_lines() == old(self).spec_lines().push(
                LineSym { file, line, address },
            ),
            final(self).spec_functions() == old(self).spec_functions(),
    {
        self.lines.push(LineSym { file, line, address });
    }

    /// The name of the function whose range covers `address`, if any — the
    /// first such symbol if ranges overlap.
    pub fn function_name_at(&self, address: usize) -> (name: Option<String>)
        ensures
            self.resolved_name_at(address, name),
    {
        let n = self.functions.len();
        let mut i: usize = 0;
        while i < n
            invariant
                n == self.functions@.len(),
                i <= n,
                forall|k: int| 0 <= k < i ==> !covers(self.functions@[k], address),
            decreases n - i,
        {
            if self.functions[i].low <= address && address < self.functions[i].high {
                let found = self.functions[i].name.clone();
                proof {
                    assert(self.is_first_function_match(address, i as int));
                }
                return Some(found);
            }
            i += 1;
        }
        None
    }

    /// The source position `address` resolves to: the row with the greatest
    /// address not past `address` (the first such row on a tie), if any row
    /// is not past it.
    pub fn source_location_at(&self, address: usize) -> (location: Option<Location>)
        ensures
            self.resolved_location_at(address, location),
    {
        let n = self.lines.len();
        let mut best: Option<usize> = None;
        let mut i: usize = 0;
        while i < n
            invariant
                n == self.lines@.len(),
                i <= n,
                match best {
                    None => forall|k: int| 0 <= k < i ==> !self.line_candidate(address, k),
                    Some(b) => {
                        &&& b < i
                        &&& self.line_candidate(address, b as int)
                        &&& forall|k: int|
                            0 <= k < i && self.line_candidate(address, k)
                                ==> self.spec_lines()[k].address <= self.spec_lines()[
                                b as int
                            ].address
                        &&& forall|k: int|
                            0 <= k < b ==> !(self.line_candidate(address, k) && self.spec_lines()[
                                k
                            ].address == self.spec_lines()[b as int].address)
                    },
                },
            decreases n - i,
        {
            if self.lines[i].address <= address {
                let better = match best {
                    None => true,
                    Some(b) => self.lines[i].address > self.lines[b].address,
                };
                if better {
                    best = Some(i);
                }
            }
            i += 1;
        }
        match best {
            None => None,
            Some(b) => {
                let row = &self.lines[b];
                proof {
                    assert(self.is_best_line_match(address, b as int));
                }
                Some(Location { file: row.file.clone(), line: row.line })
            },
        }
    }

    /// The address of the first instruction of line `line` in file `file`,
    /// if the line table has a row for it.
    pub fn address_of_line(&self, file: &str, line: usize) -> (address: Option<usize>)
        ensures
            address is Some <==> exists|i: int|
                0 <= i < self.spec_lines().len() && self.spec_lines()[i].file@ == file@
                    && self.spec_lines()[i].line == line,
            address matches Some(a) ==> exists|i: int|
                self.is_first_line_number_match(file@, line, i) && a == self.spec_lines()[
                    i
                ].address,
    {
        let n = self.lines.len();
        let mut i: usize = 0;
        while i < n
            invariant
                n == self.lines@.len(),
                i <= n,
                forall|k: int|
                    0 <= k < i ==> !(self.lines@[k].file@ == file@ && self.lines@[k].line
                        == line),
            decreases n - i,
        {
            if self.lines[i].line == line && str_eq(self.lines[i].file.as_str(), file) {
                proof {
                    assert(self.is_first_line_number_match(file@, line, i as int));
                }
                return Some(self.lines[i].address);
            }
            i += 1;
        }
        None
    }

    /// The entry address of the first function symbol named `name`, if any.
    pub fn address_of_function(&self, name: &str) -> (address: Option<usize>)
        ensures
            address is Some <==> exists|i: int|
                0 <= i < self.spec_functions().len() && self.spec_functions()[i].name@ == name@,
            address matches Some(a) ==> exists|i: int|
                self.is_first_name_match(name@, i) && a == self.spec_functions()[i].low,
    {
        let n = self.functions.len();
        let mut i: usize = 0;
        while i < n
            invariant
                n == self.functions@.len(),
                i <= n,
                forall|k: int| 0 <= k < i ==> self.functions@[k].name@ != name@,
            decreases n - i,
        {
            if str_eq(self.functions[i].name.as_str(), name) {
                proof {
                    assert(self.is_first_name_match(name@, i as int));
                }
                return Some(self.functions[i].low);
            }
            i += 1;
        }
        None
    }
}

} // verus!
