//! Imported API names, and how many of them belong to sensitive families.
use vstd::prelude::*;

use crate::elf_info::{DynSymbol, ElfInfo};
use crate::text::str_eq;

verus! {

/// File input/output system calls.
pub const FILE_IO_APIS: [&'static str; 7] = ["open", "read", "write", "close", "unlink", "stat", "fstat"];
/// Networking system calls.
pub const NETWORK_APIS: [&'static str; 7] = ["socket", "connect", "bind", "listen", "accept", "send", "recv"];
/// Process control system calls.
pub const PROCESS_APIS: [&'static str; 6] = ["fork", "exec", "execve", "kill", "waitpid", "getpid"];

/// Import statistics of an ELF file.
#[derive(Debug)]
pub struct ApiImportFeature {
    pub dynamic_library_count: usize,
    /// Distinct non-empty names of the dynamic symbols.
    pub total_import_count: usize,
    pub network_api_count: usize,
    pub process_api_count: usize,
    pub file_io_api_count: usize,
}

/// The imported name of a dynamic symbol: its non-empty name, when its name offset is not 0.
pub open spec fn import_name(s: DynSymbol) -> Option<Seq<char>> {
    if s.st_name != 0 && s.name is Some && s.name->0@.len() > 0 {
        Some(s.name->0@)
    } else {
        None
    }
}

/// The imported names of `syms`, in order, repetitions kept.
pub open spec fn import_names(syms: Seq<DynSymbol>) -> Seq<Seq<char>>
    decreases syms.len(),
{
    if syms.len() == 0 {
        seq![]
    } else {
        let prev = import_names(syms.drop_last());
        match import_name(syms.last()) {
            Some(n) => prev.push(n),
            None => prev,
        }
    }
}

/// The set of imported names.
pub open spec fn imported_set(syms: Seq<DynSymbol>) -> Set<Seq<char>> {
    import_names(syms).to_set()
}

/// Number of entries of `list` that belong to `set`.
pub open spec fn listed_count(set: Set<Seq<char>>, list: Seq<&str>) -> nat
    decreases list.len(),
{
    if list.len() == 0 {
        0
    } else {
        listed_count(set, list.drop_last()) + if set.contains(list.last()@) {
            1nat
        } else {
            0nat
        }
    }
}

/// Whether `s` is one of the strings of `v`.
fn contains_text(v: &Vec<String>, s: &str) -> (r: bool)
    ensures
        r == crate::text::texts(v@).contains(s@),
{
    let mut i: usize = 0;
    while i < v.len()
        invariant
            i <= v@.len(),
            forall|j: int| 0 <= j < i ==> v@[j]@ != s@,
        decreases v@.len() - i,
    {
        if str_eq(v[i].as_str(), s) {
            assert(crate::text::texts(v@)[i as int] == s@);
            return true;
        }
        i += 1;
    }
    proof {
        if crate::text::texts(v@).contains(s@) {
            let j = choose|j: int| 0 <= j < crate::text::texts(v@).len() && crate::text::texts(v@)[j] == s@;
            assert(v@[j]@ == s@);
        }
    }
    false
}

/// Number of entries of `list` among the strings of `names`.
fn count_listed(names: &Vec<String>, list: &[&str], Ghost(set): Ghost<Set<Seq<char>>>) -> (r: usize)
    requires
        crate::text::texts(names@).to_set() == set,
    ensures
        r == listed_count(set, list@),
{
    let mut count: usize = 0;
    let mut k: usize = 0;
    while k < list.len()
        invariant
            crate::text::texts(names@).to_set() == set,
            k <= list@.len(),
            count == listed_count(set, list@.subrange(0, k as int)),
            count <= k,
        decreases list@.len() - k,
    {
        assert(list@.subrange(0, k + 1).drop_last() == list@.subrange(0, k as int));
        if contains_text(names, list[k]) {
            count += 1;
        }
        k += 1;
    }
    assert(list@.subrange(0, list@.len() as int) == list@);
    count
}

/// `r` holds the import statistics of a parsed ELF file.
pub open spec fn is_api_import_of(r: &ApiImportFeature, elf: &ElfInfo) -> bool {
    &&& r.dynamic_library_count == elf.library_count
    &&& r.total_import_count == imported_set(elf.dynamic_symbols@).len()
    &&& r.file_io_api_count == listed_count(imported_set(elf.dynamic_symbols@), FILE_IO_APIS@)
    &&& r.network_api_count == listed_count(imported_set(elf.dynamic_symbols@), NETWORK_APIS@)
    &&& r.process_api_count == listed_count(imported_set(elf.dynamic_symbols@), PROCESS_APIS@)
}

impl ApiImportFeature {
    /// Import statistics of a parsed ELF file.
    pub fn extract(elf: &ElfInfo) -> (r: Self)
        ensures
            is_api_import_of(&r, elf),
    {
        let syms = &elf.dynamic_symbols;
        let n = syms.len();
        let mut seen: Vec<String> = Vec::new();
        let mut i: usize = 0;
        while i < n
            invariant
                n == syms@.len(),
                i <= n,
                crate::text::texts(seen@).no_duplicates(),
                crate::text::texts(seen@).to_set() == imported_set(syms@.subrange(0, i as int)),
            decreases n - i,
        {
            let s = &syms[i];
            let ghost prefix = syms@.subrange(0, i as int);
            proof {
                assert(syms@.subrange(0, i + 1).drop_last() == prefix);
                assert(syms@.subrange(0, i + 1).last() == syms@[i as int]);
            }
            if s.st_name != 0 {
                if let Some(name) = &s.name {
                    if !name.as_str().is_empty() {
                        if !contains_text(&seen, name.as_str()) {
                            let ghost old_seen = seen@;
                            seen.push(name.clone());
                            proof {
                                assert(crate::text::texts(seen@) == crate::text::texts(old_seen).push(name@));
                                crate::text::texts(old_seen).lemma_push_to_set_commute(name@);
                                import_names(prefix).lemma_push_to_set_commute(name@);
                                assert(crate::text::texts(seen@).no_duplicates()) by {
                                    assert forall|a: int, b: int| 0 <= a < b < crate::text::texts(seen@).len() implies crate::text::texts(seen@)[a] != crate::text::texts(seen@)[b] by {
                                        if b == crate::text::texts(old_seen).len() {
                                            assert(crate::text::texts(old_seen).contains(crate::text::texts(old_seen)[a]));
                                        }
                                    }
                                }
                            }
                        } else {
                            proof {
                                import_names(prefix).lemma_push_to_set_commute(name@);
                                assert(crate::text::texts(seen@).to_set().insert(name@) =~= crate::text::texts(seen@).to_set());
                            }
                        }
                    }
                }
            }
            i += 1;
        }
        assert(syms@.subrange(0, n as int) == syms@);
        proof {
            crate::text::texts(seen@).unique_seq_to_set();
        }
        let total = seen.len();
        let file_io = count_listed(&seen, FILE_IO_APIS.as_slice(), Ghost(imported_set(syms@)));
        let network = count_listed(&seen, NETWORK_APIS.as_slice(), Ghost(imported_set(syms@)));
        let process = count_listed(&seen, PROCESS_APIS.as_slice(), Ghost(imported_set(syms@)));
        ApiImportFeature {
            dynamic_library_count: elf.library_count,
            total_import_count: total,
            file_io_api_count: file_io,
            network_api_count: network,
            process_api_count: process,
        }
    }
}

/// What each family count is made of: one for each of the family's system
/// calls that the file imports. File input/output: `open`, `read`, `write`,
/// `close`, `unlink`, `stat`, `fstat`; networking: `socket`, `connect`,
/// `bind`, `listen`, `accept`, `send`, `recv`; process control: `fork`,
/// `exec`, `execve`, `kill`, `waitpid`, `getpid`.
pub proof fn lemma_api_family_counts(r: &ApiImportFeature, elf: &ElfInfo)
    requires
        is_api_import_of(r, elf),
    ensures
        r.file_io_api_count == (if imported_set(elf.dynamic_symbols@).contains("open"@) { 1int } else { 0int })
            + (if imported_set(elf.dynamic_symbols@).contains("read"@) { 1int } else { 0int })
            + (if imported_set(elf.dynamic_symbols@).contains("write"@) { 1int } else { 0int })
            + (if imported_set(elf.dynamic_symbols@).contains("close"@) { 1int } else { 0int })
            + (if imported_set(elf.dynamic_symbols@).contains("unlink"@) { 1int } else { 0int })
            + (if imported_set(elf.dynamic_symbols@).contains("stat"@) { 1int } else { 0int })
            + (if imported_set(elf.dynamic_symbols@).contains("fstat"@) { 1int } else { 0int }),
        r.network_api_count == (if imported_set(elf.dynamic_symbols@).contains("socket"@) { 1int } else { 0int })
            + (if imported_set(elf.dynamic_symbols@).contains("connect"@) { 1int } else { 0int })
            + (if imported_set(elf.dynamic_symbols@).contains("bind"@) { 1int } else { 0int })
            + (if imported_set(elf.dynamic_symbols@).contains("listen"@) { 1int } else { 0int })
            + (if imported_set(elf.dynamic_symbols@).contains("accept"@) { 1int } else { 0int })
            + (if imported_set(elf.dynamic_symbols@).contains("send"@) { 1int } else { 0int })
            + (if imported_set(elf.dynamic_symbols@).contains("recv"@) { 1int } else { 0int }),
        r.process_api_count == (if imported_set(elf.dynamic_symbols@).contains("fork"@) { 1int } else { 0int })
            + (if imported_set(elf.dynamic_symbols@).contains("exec"@) { 1int } else { 0int })
            + (if imported_set(elf.dynamic_symbols@).contains("execve"@) { 1int } else { 0int })
            + (if imported_set(elf.dynamic_symbols@).contains("kill"@) { 1int } else { 0int })
            + (if imported_set(elf.dynamic_symbols@).contains("waitpid"@) { 1int } else { 0int })
            + (if imported_set(elf.dynamic_symbols@).contains("getpid"@) { 1int } else { 0int }),
{
    lemma_file_io_listed(imported_set(elf.dynamic_symbols@));
    lemma_network_listed(imported_set(elf.dynamic_symbols@));
    lemma_process_listed(imported_set(elf.dynamic_symbols@));
}

proof fn lemma_file_io_listed(set: Set<Seq<char>>)
    ensures
        listed_count(set, FILE_IO_APIS@) == (if set.contains("open"@) { 1int } else { 0int })
            + (if set.contains("read"@) { 1int } else { 0int })
            + (if set.contains("write"@) { 1int } else { 0int })
            + (if set.contains("close"@) { 1int } else { 0int })
            + (if set.contains("unlink"@) { 1int } else { 0int })
            + (if set.contains("stat"@) { 1int } else { 0int })
            + (if set.contains("fstat"@) { 1int } else { 0int }),
{
    assert(listed_count(set, FILE_IO_APIS@.subrange(0, 0)) == 0);
    assert(FILE_IO_APIS@.subrange(0, 1).drop_last() =~= FILE_IO_APIS@.subrange(0, 0));
    assert(FILE_IO_APIS@.subrange(0, 1).last() == "open");
    assert(listed_count(set, FILE_IO_APIS@.subrange(0, 1)) == listed_count(set, FILE_IO_APIS@.subrange(0, 0)) + (if set.contains("open"@) { 1int } else { 0int }));
    assert(FILE_IO_APIS@.subrange(0, 2).drop_last() =~= FILE_IO_APIS@.subrange(0, 1));
    assert(FILE_IO_APIS@.subrange(0, 2).last() == "read");
    assert(listed_count(set, FILE_IO_APIS@.subrange(0, 2)) == listed_count(set, FILE_IO_APIS@.subrange(0, 1)) + (if set.contains("read"@) { 1int } else { 0int }));
    assert(FILE_IO_APIS@.subrange(0, 3).drop_last() =~= FILE_IO_APIS@.subrange(0, 2));
    assert(FILE_IO_APIS@.subrange(0, 3).last() == "write");
    assert(listed_count(set, FILE_IO_APIS@.subrange(0, 3)) == listed_count(set, FILE_IO_APIS@.subrange(0, 2)) + (if set.contains("write"@) { 1int } else { 0int }));
    assert(FILE_IO_APIS@.subrange(0, 4).drop_last() =~= FILE_IO_APIS@.subrange(0, 3));
    assert(FILE_IO_APIS@.subrange(0, 4).last() == "close");
    assert(listed_count(set, FILE_IO_APIS@.subrange(0, 4)) == listed_count(set, FILE_IO_APIS@.subrange(0, 3)) + (if set.contains("close"@) { 1int } else { 0int }));
    assert(FILE_IO_APIS@.subrange(0, 5).drop_last() =~= FILE_IO_APIS@.subrange(0, 4));
    assert(FILE_IO_APIS@.subrange(0, 5).last() == "unlink");
    assert(listed_count(set, FILE_IO_APIS@.subrange(0, 5)) == listed_count(set, FILE_IO_APIS@.subrange(0, 4)) + (if set.contains("unlink"@) { 1int } else { 0int }));
    assert(FILE_IO_APIS@.subrange(0, 6).drop_last() =~= FILE_IO_APIS@.subrange(0, 5));
    assert(FILE_IO_APIS@.subrange(0, 6).last() == "stat");
    assert(listed_count(set, FILE_IO_APIS@.subrange(0, 6)) == listed_count(set, FILE_IO_APIS@.subrange(0, 5)) + (if set.contains("stat"@) { 1int } else { 0int }));
    assert(FILE_IO_APIS@.subrange(0, 7).drop_last() =~= FILE_IO_APIS@.subrange(0, 6));
    assert(FILE_IO_APIS@.subrange(0, 7).last() == "fstat");
    assert(listed_count(set, FILE_IO_APIS@.subrange(0, 7)) == listed_count(set, FILE_IO_APIS@.subrange(0, 6)) + (if set.contains("fstat"@) { 1int } else { 0int }));
    assert(FILE_IO_APIS@.subrange(0, 7) =~= FILE_IO_APIS@);
}

proof fn lemma_network_listed(set: Set<Seq<char>>)
    ensures
        listed_count(set, NETWORK_APIS@) == (if set.contains("socket"@) { 1int } else { 0int })
            + (if set.contains("connect"@) { 1int } else { 0int })
            + (if set.contains("bind"@) { 1int } else { 0int })
            + (if set.contains("listen"@) { 1int } else { 0int })
            + (if set.contains("accept"@) { 1int } else { 0int })
            + (if set.contains("send"@) { 1int } else { 0int })
            + (if set.contains("recv"@) { 1int } else { 0int }),
{
    assert(listed_count(set, NETWORK_APIS@.subrange(0, 0)) == 0);
    assert(NETWORK_APIS@.subrange(0, 1).drop_last() =~= NETWORK_APIS@.subrange(0, 0));
    assert(NETWORK_APIS@.subrange(0, 1).last() == "socket");
    assert(listed_count(set, NETWORK_APIS@.subrange(0, 1)) == listed_count(set, NETWORK_APIS@.subrange(0, 0)) + (if set.contains("socket"@) { 1int } else { 0int }));
    assert(NETWORK_APIS@.subrange(0, 2).drop_last() =~= NETWORK_APIS@.subrange(0, 1));
    assert(NETWORK_APIS@.subrange(0, 2).last() == "connect");
    assert(listed_count(set, NETWORK_APIS@.subrange(0, 2)) == listed_count(set, NETWORK_APIS@.subrange(0, 1)) + (if set.contains("connect"@) { 1int } else { 0int }));
    assert(NETWORK_APIS@.subrange(0, 3).drop_last() =~= NETWORK_APIS@.subrange(0, 2));
    assert(NETWORK_APIS@.subrange(0, 3).last() == "bind");
    assert(listed_count(set, NETWORK_APIS@.subrange(0, 3)) == listed_count(set, NETWORK_APIS@.subrange(0, 2)) + (if set.contains("bind"@) { 1int } else { 0int }));
    assert(NETWORK_APIS@.subrange(0, 4).drop_last() =~= NETWORK_APIS@.subrange(0, 3));
    assert(NETWORK_APIS@.subrange(0, 4).last() == "listen");
    assert(listed_count(set, NETWORK_APIS@.subrange(0, 4)) == listed_count(set, NETWORK_APIS@.subrange(0, 3)) + (if set.contains("listen"@) { 1int } else { 0int }));
    assert(NETWORK_APIS@.subrange(0, 5).drop_last() =~= NETWORK_APIS@.subrange(0, 4));
    assert(NETWORK_APIS@.subrange(0, 5).last() == "accept");
    assert(listed_count(set, NETWORK_APIS@.subrange(0, 5)) == listed_count(set, NETWORK_APIS@.subrange(0, 4)) + (if set.contains("accept"@) { 1int } else { 0int }));
    assert(NETWORK_APIS@.subrange(0, 6).drop_last() =~= NETWORK_APIS@.subrange(0, 5));
    assert(NETWORK_APIS@.subrange(0, 6).last() == "send");
    assert(listed_count(set, NETWORK_APIS@.subrange(0, 6)) == listed_count(set, NETWORK_APIS@.subrange(0, 5)) + (if set.contains("send"@) { 1int } else { 0int }));
    assert(NETWORK_APIS@.subrange(0, 7).drop_last() =~= NETWORK_APIS@.subrange(0, 6));
    assert(NETWORK_APIS@.subrange(0, 7).last() == "recv");
    assert(listed_count(set, NETWORK_APIS@.subrange(0, 7)) == listed_count(set, NETWORK_APIS@.subrange(0, 6)) + (if set.contains("recv"@) { 1int } else { 0int }));
    assert(NETWORK_APIS@.subrange(0, 7) =~= NETWORK_APIS@);
}

proof fn lemma_process_listed(set: Set<Seq<char>>)
    ensures
        listed_count(set, PROCESS_APIS@) == (if set.contains("fork"@) { 1int } else { 0int })
            + (if set.contains("exec"@) { 1int } else { 0int })
            + (if set.contains("execve"@) { 1int } else { 0int })
            + (if set.contains("kill"@) { 1int } else { 0int })
            + (if set.contains("waitpid"@) { 1int } else { 0int })
            + (if set.contains("getpid"@) { 1int } else { 0int }),
{
    assert(listed_count(set, PROCESS_APIS@.subrange(0, 0)) == 0);
    assert(PROCESS_APIS@.subrange(0, 1).drop_last() =~= PROCESS_APIS@.subrange(0, 0));
    assert(PROCESS_APIS@.subrange(0, 1).last() == "fork");
    assert(listed_count(set, PROCESS_APIS@.subrange(0, 1)) == listed_count(set, PROCESS_APIS@.subrange(0, 0)) + (if set.contains("fork"@) { 1int } else { 0int }));
    assert(PROCESS_APIS@.subrange(0, 2).drop_last() =~= PROCESS_APIS@.subrange(0, 1));
    assert(PROCESS_APIS@.subrange(0, 2).last() == "exec");
    assert(listed_count(set, PROCESS_APIS@.subrange(0, 2)) == listed_count(set, PROCESS_APIS@.subrange(0, 1)) + (if set.contains("exec"@) { 1int } else { 0int }));
    assert(PROCESS_APIS@.subrange(0, 3).drop_last() =~= PROCESS_APIS@.subrange(0, 2));
    assert(PROCESS_APIS@.subrange(0, 3).last() == "execve");
    assert(listed_count(set, PROCESS_APIS@.subrange(0, 3)) == listed_count(set, PROCESS_APIS@.subrange(0, 2)) + (if set.contains("execve"@) { 1int } else { 0int }));
    assert(PROCESS_APIS@.subrange(0, 4).drop_last() =~= PROCESS_APIS@.subrange(0, 3));
    assert(PROCESS_APIS@.subrange(0, 4).last() == "kill");
    assert(listed_count(set, PROCESS_APIS@.subrange(0, 4)) == listed_count(set, PROCESS_APIS@.subrange(0, 3)) + (if set.contains("kill"@) { 1int } else { 0int }));
    assert(PROCESS_APIS@.subrange(0, 5).drop_last() =~= PROCESS_APIS@.subrange(0, 4));
    assert(PROCESS_APIS@.subrange(0, 5).last() == "waitpid");
    assert(listed_count(set, PROCESS_APIS@.subrange(0, 5)) == listed_count(set, PROCESS_APIS@.subrange(0, 4)) + (if set.contains("waitpid"@) { 1int } else { 0int }));
    assert(PROCESS_APIS@.subrange(0, 6).drop_last() =~= PROCESS_APIS@.subrange(0, 5));
    assert(PROCESS_APIS@.subrange(0, 6).last() == "getpid");
    assert(listed_count(set, PROCESS_APIS@.subrange(0, 6)) == listed_count(set, PROCESS_APIS@.subrange(0, 5)) + (if set.contains("getpid"@) { 1int } else { 0int }));
    assert(PROCESS_APIS@.subrange(0, 6) =~= PROCESS_APIS@);
}

} // verus!
