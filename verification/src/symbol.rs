//! Symbols and the rules of the symbol table: hashing, lookup, and the
//! saving and restoring of a global's attributes while a local hides it.

use vstd::prelude::*;
use vstd::slice::*;

verus! {

/// One entry of the symbol table. Keywords, system calls and the identifiers
/// of the program share the table.
#[derive(Clone, Debug)]
pub struct Symbol {
    /// Token code that the lexer returns for this name.
    pub token: i32,
    /// `symbol_hash` of the name.
    pub hash: i32,
    pub name: Vec<u8>,
    /// Storage class: 0 while unbound, else one of the class token codes.
    pub class: i32,
    /// Type code.
    pub type_: i32,
    /// Code address, system call opcode, data address, frame index or
    /// constant, by class.
    pub value: i64,
    /// Class, type and value of the global that a local of this name hides.
    pub h_class: i32,
    pub h_type: i32,
    pub h_val: i64,
}

/// What a symbol is, with its name as a sequence of bytes.
pub struct SymbolView {
    pub token: i32,
    pub hash: i32,
    pub name: Seq<u8>,
    pub class: i32,
    pub ty: i32,
    pub value: i64,
    pub h_class: i32,
    pub h_ty: i32,
    pub h_value: i64,
}

impl View for Symbol {
    type V = SymbolView;

    open spec fn view(&self) -> SymbolView {
        SymbolView {
            token: self.token,
            hash: self.hash,
            name: self.name@,
            class: self.class,
            ty: self.type_,
            value: self.value,
            h_class: self.h_class,
            h_ty: self.h_type,
            h_value: self.h_val,
        }
    }
}

impl SymbolView {
    /// A fresh entry for `name`: no class, no type, value 0.
    pub open spec fn unbound(token: i32, name: Seq<u8>) -> SymbolView {
        SymbolView {
            token,
            hash: symbol_hash(name),
            name,
            class: 0,
            ty: 0,
            value: 0,
            h_class: 0,
            h_ty: 0,
            h_value: 0,
        }
    }

    /// The entry with class, type and value replaced.
    pub open spec fn bind(self, class: i32, ty: i32, value: i64) -> SymbolView {
        SymbolView { class, ty, value, ..self }
    }

    /// The entry after its class, type and value were saved in the shadow
    /// fields.
    pub open spec fn shadow(self) -> SymbolView {
        SymbolView { h_class: self.class, h_ty: self.ty, h_value: self.value, ..self }
    }

    /// The entry after its class, type and value were restored from the
    /// shadow fields.
    pub open spec fn unshadow(self) -> SymbolView {
        SymbolView { class: self.h_class, ty: self.h_ty, value: self.h_value, ..self }
    }
}

/// The table as a sequence of symbol views.
pub open spec fn symbols_view(table: Seq<Symbol>) -> Seq<SymbolView> {
    Seq::new(table.len(), |i: int| table[i]@)
}

/// `h * 147 + c` over the bytes of the name, from 0, in wrapping arithmetic.
pub open spec fn hash_fold(name: Seq<u8>) -> i32
    decreases name.len(),
{
    if name.len() == 0 {
        0
    } else {
        hash_fold(name.drop_last()).wrapping_mul(147).wrapping_add(name.last() as i32)
    }
}

/// The hash of a name: the fold shifted left by 6, plus the length.
pub open spec fn symbol_hash(name: Seq<u8>) -> i32 {
    (hash_fold(name) << 6).wrapping_add(name.len() as i32)
}

/// Index of the first entry from `i` on with this hash and this name.
pub open spec fn find_from(table: Seq<SymbolView>, hash: i32, name: Seq<u8>, i: int) -> Option<int>
    decreases table.len() - i,
{
    if i < 0 || i >= table.len() {
        None
    } else if table[i].hash == hash && table[i].name == name {
        Some(i)
    } else {
        find_from(table, hash, name, i + 1)
    }
}

/// Index of the first entry with this hash and this name.
pub open spec fn find(table: Seq<SymbolView>, hash: i32, name: Seq<u8>) -> Option<int> {
    find_from(table, hash, name, 0)
}

/// What `find_from` returns is a match, and nothing before it is.
pub proof fn lemma_find_from(table: Seq<SymbolView>, hash: i32, name: Seq<u8>, i: int)
    requires
        0 <= i,
    ensures
        match find_from(table, hash, name, i) {
            Some(k) => {
                &&& i <= k < table.len()
                &&& table[k].hash == hash
                &&& table[k].name == name
                &&& forall|j: int| i <= j < k ==> !(table[j].hash == hash && table[j].name == name)
            },
            None => forall|j: int|
                i <= j < table.len() ==> !(#[trigger] table[j].hash == hash && table[j].name
                    == name),
        },
    decreases table.len() - i,
{
    if i < table.len() && !(table[i].hash == hash && table[i].name == name) {
        lemma_find_from(table, hash, name, i + 1);
    }
}

/// Lookup in a table with one more entry: an earlier match stays the
/// answer, and the new entry is found only where there was none.
pub proof fn lemma_find_from_push(
    table: Seq<SymbolView>,
    sym: SymbolView,
    hash: i32,
    name: Seq<u8>,
    i: int,
)
    requires
        0 <= i <= table.len(),
    ensures
        find_from(table.push(sym), hash, name, i) == match find_from(table, hash, name, i) {
            Some(k) => Some(k),
            None => if sym.hash == hash && sym.name == name {
                Some(table.len() as int)
            } else {
                None
            },
        },
    decreases table.len() - i,
{
    if i < table.len() {
        assert(table.push(sym)[i] == table[i]);
        if !(table[i].hash == hash && table[i].name == name) {
            lemma_find_from_push(table, sym, hash, name, i + 1);
        }
    } else {
        assert(table.push(sym)[i] == sym);
        assert(find_from(table.push(sym), hash, name, i + 1) is None);
    }
}

/// Extending the fold by one byte.
pub proof fn lemma_hash_fold_push(name: Seq<u8>, c: u8)
    ensures
        hash_fold(name.push(c)) == hash_fold(name).wrapping_mul(147).wrapping_add(c as i32),
{
    assert(name.push(c).drop_last() =~= name);
}

/// Whether two byte strings are equal.
pub(crate) fn bytes_eq(a: &[u8], b: &[u8]) -> (r: bool)
    ensures
        r == (a@ == b@),
{
    if a.len() != b.len() {
        return false;
    }
    let mut i: usize = 0;
    while i < a.len()
        invariant
            a@.len() == b@.len(),
            i <= a@.len(),
            forall|j: int| 0 <= j < i ==> a@[j] == b@[j],
        decreases a@.len() - i,
    {
        if a[i] != b[i] {
            return false;
        }
        i += 1;
    }
    assert(a@ =~= b@);
    true
}

/// The hash of a name.
pub fn name_hash(name: &[u8]) -> (h: i32)
    ensures
        h == symbol_hash(name@),
{
    let mut h: i32 = 0;
    let mut i: usize = 0;
    while i < name.len()
        invariant
            i <= name@.len(),
            h == hash_fold(name@.subrange(0, i as int)),
        decreases name@.len() - i,
    {
        proof {
            lemma_hash_fold_push(name@.subrange(0, i as int), name@[i as int]);
            assert(name@.subrange(0, i as int).push(name@[i as int]) =~= name@.subrange(
                0,
                i + 1,
            ));
        }
        h = h.wrapping_mul(147).wrapping_add(name[i] as i32);
        i += 1;
    }
    assert(name@.subrange(0, i as int) =~= name@);
    (h << 6).wrapping_add(
        #[verifier::truncate]
        (name.len() as i32),
    )
}

/// A copy of a byte string.
pub(crate) fn copy_bytes(bytes: &[u8]) -> (v: Vec<u8>)
    ensures
        v@ == bytes@,
{
    slice_to_vec(bytes)
}

/// Index of the first symbol with this hash and this name.
pub fn find_in(table: &Vec<Symbol>, hash: i32, name: &[u8]) -> (r: Option<usize>)
    ensures
        match r {
            Some(i) => i < table.len() && find(symbols_view(table@), hash, name@) == Some(
                i as int,
            ),
            None => find(symbols_view(table@), hash, name@) is None,
        },
{
    let ghost t = symbols_view(table@);
    let mut i: usize = 0;
    while i < table.len()
        invariant
            i <= table.len(),
            t == symbols_view(table@),
            find_from(t, hash, name@, i as int) == find(t, hash, name@),
        decreases table.len() - i,
    {
        if table[i].hash == hash && bytes_eq(table[i].name.as_slice(), name) {
            return Some(i);
        }
        i += 1;
    }
    None
}

} // verus!
