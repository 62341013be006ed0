use crate::assoc::AssocList;
use crate::define::FFIError;
use crate::text::{concat, contains_str, contains_text, debug_string, debug_text};
use vstd::prelude::*;

verus! {

/// The libraries opened so far, each under the name it was opened with, together with
/// the symbols looked up in it so far (a lookup that failed is kept as well).
pub struct LibraryMap<L, S> {
    libraries: AssocList<(L, AssocList<S>)>,
}

/// The message of the error for a library that was not opened.
pub open spec fn library_not_found_message(name: Seq<char>) -> Seq<char> {
    "Before calling load, you need to open the file "@ + debug_text(name)
        + " with the open method"@
}

/// The message of the error for a function that a library does not export.
pub open spec fn function_not_found_message(name: Seq<char>) -> Seq<char> {
    "Cannot find "@ + debug_text(name) + " function in shared library"@
}

/// The error for a library that was not opened.
pub fn library_not_found_error(name: &String) -> (res: FFIError)
    ensures
        res matches FFIError::LibraryNotFound(m) && m@ == library_not_found_message(name@),
{
    let quoted = debug_string(name.as_str());
    let head = concat("Before calling load, you need to open the file ", quoted.as_str());
    FFIError::LibraryNotFound(concat(head.as_str(), " with the open method"))
}

/// The error for a function that a library does not export.
pub fn function_not_found_error(name: &String) -> (res: FFIError)
    ensures
        res matches FFIError::FunctionNotFound(m) && m@ == function_not_found_message(name@),
{
    let quoted = debug_string(name.as_str());
    let head = concat("Cannot find ", quoted.as_str());
    FFIError::FunctionNotFound(concat(head.as_str(), " function in shared library"))
}

/// Whether the system's message on a library that could not be opened says the file was
/// built for another platform.
pub open spec fn is_foreign_binary_message(message: Seq<char>) -> bool {
    ||| contains_text(message, "is not a valid Win32 application"@)
    ||| contains_text(message, "not a mach-o file"@)
    ||| contains_text(message, "invalid ELF header"@)
}

/// The message of the error for a library file that could not be opened: where the
/// system says the file was built for another platform, advice to check the build
/// environment followed by `detail`; otherwise the system's `message`.
pub open spec fn opening_library_message(message: Seq<char>, detail: Seq<char>) -> Seq<char> {
    if is_foreign_binary_message(message) {
        "Please check whether the library has the same compilation and runtime environment.\n Error detail info: "@
            + detail
    } else {
        message
    }
}

/// The error for a library file that could not be opened, from the system's `message`
/// and the `detail` of its error.
pub fn opening_library_error(message: &String, detail: &String) -> (res: FFIError)
    ensures
        res matches FFIError::Panic(m) && m@ == opening_library_message(message@, detail@),
{
    if contains_str(message.as_str(), "is not a valid Win32 application") || contains_str(
        message.as_str(),
        "not a mach-o file",
    ) || contains_str(message.as_str(), "invalid ELF header") {
        FFIError::Panic(
            concat(
                "Please check whether the library has the same compilation and runtime environment.\n Error detail info: ",
                detail.as_str(),
            ),
        )
    } else {
        FFIError::Panic(message.clone())
    }
}

/// The function that a lookup of `func_name` gave: the one found, or, where the library
/// does not export it, the error for a missing function.
pub fn symbol_result<F: Copy>(found: Option<F>, func_name: &String) -> (res: Result<F, FFIError>)
    ensures
        found matches Some(f) ==> res == Ok::<F, FFIError>(f),
        found is None ==> (res matches Err(e) && e matches FFIError::FunctionNotFound(m) && m@
            == function_not_found_message(func_name@)),
{
    match found {
        Some(f) => Ok(f),
        None => Err(function_not_found_error(func_name)),
    }
}

impl<L, S> LibraryMap<L, S> {
    /// Each open library by its name.
    pub closed spec fn libraries(&self) -> Map<Seq<char>, L> {
        self.libraries@.map_values(|e: (L, AssocList<S>)| e.0)
    }

    /// The symbols looked up so far in each open library, by library name and symbol name.
    pub closed spec fn symbols(&self) -> Map<Seq<char>, Map<Seq<char>, S>> {
        self.libraries@.map_values(|e: (L, AssocList<S>)| e.1@)
    }

    /// No library is open.
    pub fn new() -> (res: Self)
        ensures
            res.libraries() == Map::<Seq<char>, L>::empty(),
            res.symbols() == Map::<Seq<char>, Map<Seq<char>, S>>::empty(),
    {
        let res = LibraryMap { libraries: AssocList::new() };
        proof {
            assert(res.libraries() =~= Map::<Seq<char>, L>::empty());
            assert(res.symbols() =~= Map::<Seq<char>, Map<Seq<char>, S>>::empty());
        }
        res
    }

    /// Whether a library is open under `name`.
    pub fn contains(&self, name: &String) -> (res: bool)
        ensures
            res == self.libraries().contains_key(name@),
    {
        self.libraries.contains(name)
    }

    /// The library opened under `name`, if any.
    pub fn library(&self, name: &String) -> (res: Option<&L>)
        ensures
            match res {
                Some(l) => self.libraries().contains_key(name@) && self.libraries()[name@] == *l,
                None => !self.libraries().contains_key(name@),
            },
    {
        match self.libraries.get(name) {
            Some(entry) => Some(&entry.0),
            None => None,
        }
    }

    /// Records `library` as opened under `name`, with no symbol looked up yet.
    pub fn insert(&mut self, name: String, library: L)
        ensures
            final(self).libraries() == old(self).libraries().insert(name@, library),
            final(self).symbols() == old(self).symbols().insert(
                name@,
                Map::<Seq<char>, S>::empty(),
            ),
    {
        let ghost k = name@;
        let cache: AssocList<S> = AssocList::new();
        self.libraries.insert(name, (library, cache));
        proof {
            assert(self.libraries() =~= old(self).libraries().insert(k, library));
            assert(self.symbols() =~= old(self).symbols().insert(k, Map::<Seq<char>, S>::empty()));
        }
    }

    /// Opens `library` under `name` unless a library is already open under that name, in
    /// which case nothing changes: opening twice is opening once.
    pub fn open_library(&mut self, name: String, library: L)
        ensures
            old(self).libraries().contains_key(name@) ==> final(self).libraries() == old(
                self,
            ).libraries() && final(self).symbols() == old(self).symbols(),
            !old(self).libraries().contains_key(name@) ==> final(self).libraries() == old(
                self,
            ).libraries().insert(name@, library) && final(self).symbols() == old(
                self,
            ).symbols().insert(name@, Map::<Seq<char>, S>::empty()),
    {
        if !self.contains(&name) {
            self.insert(name, library);
        }
    }

    /// Forgets the library opened under `name` and the symbols looked up in it.
    pub fn remove(&mut self, name: &String)
        ensures
            final(self).libraries() == old(self).libraries().remove(name@),
            final(self).symbols() == old(self).symbols().remove(name@),
    {
        let _ = self.libraries.remove(name);
        proof {
            assert(self.libraries() =~= old(self).libraries().remove(name@));
            assert(self.symbols() =~= old(self).symbols().remove(name@));
        }
    }

    /// What was recorded for `func_name` in the library opened under `library`: an error
    /// where no library is open under that name; otherwise the recorded symbol, if any.
    pub fn cached_symbol(&self, library: &String, func_name: &String) -> (res: Result<
        Option<&S>,
        FFIError,
    >)
        ensures
            !self.libraries().contains_key(library@) ==> (res matches Err(e) && e matches FFIError::LibraryNotFound(m)
                && m@ == library_not_found_message(library@)),
            self.libraries().contains_key(library@) ==> match res {
                Ok(Some(s)) => self.symbols()[library@].contains_key(func_name@)
                    && self.symbols()[library@][func_name@] == *s,
                Ok(None) => !self.symbols()[library@].contains_key(func_name@),
                Err(_) => false,
            },
    {
        match self.libraries.get(library) {
            None => Err(library_not_found_error(library)),
            Some(entry) => Ok(entry.1.get(func_name)),
        }
    }

    /// Records what looking up `func_name` in the library opened under `library` gave.
    pub fn cache_symbol(&mut self, library: &String, func_name: String, symbol: S)
        requires
            old(self).libraries().contains_key(library@),
        ensures
            final(self).libraries() == old(self).libraries(),
            final(self).symbols() == old(self).symbols().insert(
                library@,
                old(self).symbols()[library@].insert(func_name@, symbol),
            ),
    {
        let ghost f = func_name@;
        match self.libraries.remove(library) {
            Some(entry) => {
                let (lib, mut cache) = entry;
                cache.insert(func_name, symbol);
                self.libraries.insert(library.clone(), (lib, cache));
                proof {
                    assert(self.libraries() =~= old(self).libraries());
                    assert(self.symbols() =~= old(self).symbols().insert(
                        library@,
                        old(self).symbols()[library@].insert(f, symbol),
                    ));
                }
            },
            None => {
                proof {
                    assert(false);
                }
            },
        }
    }
}


/// Law: once a library is recorded under a name it is found under that name, with no
/// symbol recorded yet, and what other names hold is unchanged.
pub proof fn lemma_open_then_find<L, S>(
    before: LibraryMap<L, S>,
    after: LibraryMap<L, S>,
    name: Seq<char>,
    library: L,
    other: Seq<char>,
)
    requires
        after.libraries() == before.libraries().insert(name, library),
        after.symbols() == before.symbols().insert(name, Map::<Seq<char>, S>::empty()),
    ensures
        after.libraries().contains_key(name),
        after.libraries()[name] == library,
        after.symbols()[name] == Map::<Seq<char>, S>::empty(),
        other != name ==> after.libraries().contains_key(other) == before.libraries().contains_key(
            other,
        ),
        other != name && before.libraries().contains_key(other) ==> after.libraries()[other]
            == before.libraries()[other],
{
}

/// Law: once a library is closed, no library is found under its name (so a symbol lookup
/// there fails with `LibraryNotFound`), and the other libraries stay as they were.
pub proof fn lemma_close_then_not_found<L, S>(
    before: LibraryMap<L, S>,
    after: LibraryMap<L, S>,
    name: Seq<char>,
    other: Seq<char>,
)
    requires
        after.libraries() == before.libraries().remove(name),
    ensures
        !after.libraries().contains_key(name),
        other != name ==> after.libraries().contains_key(other) == before.libraries().contains_key(
            other,
        ),
        other != name && before.libraries().contains_key(other) ==> after.libraries()[other]
            == before.libraries()[other],
{
}

/// Law: a symbol recorded for a library is what is found for it afterwards; the symbols
/// recorded for other names are unchanged.
pub proof fn lemma_cache_then_find<L, S>(
    before: LibraryMap<L, S>,
    after: LibraryMap<L, S>,
    library: Seq<char>,
    func_name: Seq<char>,
    symbol: S,
    other: Seq<char>,
)
    requires
        before.libraries().contains_key(library),
        after.symbols() == before.symbols().insert(
            library,
            before.symbols()[library].insert(func_name, symbol),
        ),
    ensures
        after.symbols()[library].contains_key(func_name),
        after.symbols()[library][func_name] == symbol,
        other != func_name && before.symbols()[library].contains_key(other) ==> after.symbols()[library][other]
            == before.symbols()[library][other],
{
}

} // verus!
