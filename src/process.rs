//! A snapshot of the operating system's process table, and the sweep that
//! finds every process of a given binary name.

use vstd::prelude::*;
use crate::text::same_text;

verus! {

/// One running process: its identifier and its binary name.
#[derive(Debug)]
pub struct ProcessEntry {
    pub pid: u32,
    pub name: String,
}

impl ProcessEntry {
    pub fn new(pid: u32, name: &str) -> (r: ProcessEntry)
        ensures
            r.pid == pid,
            r.name@ == name@,
    {
        ProcessEntry { pid, name: String::from_str(name) }
    }
}

/// A blank that separates the columns of a process listing.
pub open spec fn is_blank(c: char) -> bool {
    c == ' ' || c == '\t'
}

/// A decimal digit.
pub open spec fn is_digit(c: char) -> bool {
    '0' <= c && c <= '9'
}

/// The value of a decimal digit.
pub open spec fn digit_value(c: char) -> int {
    (c as u32) as int - ('0' as u32) as int
}

/// The first position from `i` on that holds no blank.
pub open spec fn skip_blanks(s: Seq<char>, i: int) -> int
    decreases s.len() - i,
{
    if 0 <= i < s.len() && is_blank(s[i]) {
        skip_blanks(s, i + 1)
    } else {
        i
    }
}

/// The first position from `i` on that holds no digit.
pub open spec fn skip_digits(s: Seq<char>, i: int) -> int
    decreases s.len() - i,
{
    if 0 <= i < s.len() && is_digit(s[i]) {
        skip_digits(s, i + 1)
    } else {
        i
    }
}

/// The number that the digits from `from` up to `to` write.
pub open spec fn decimal_value(s: Seq<char>, from: int, to: int) -> int
    decreases to - from,
{
    if to <= from {
        0
    } else {
        decimal_value(s, from, to - 1) * 10 + digit_value(s[to - 1])
    }
}

/// The position just after the last `/` between `from` and `i`, or `from`
/// where there is none: where the file name of a path starts.
pub open spec fn name_start(s: Seq<char>, from: int, i: int) -> int
    decreases i - from,
{
    if i <= from {
        from
    } else if s[i - 1] == '/' {
        i
    } else {
        name_start(s, from, i - 1)
    }
}

/// The process that one line of `ps -o pid= -o comm=` lists: blanks, the
/// identifier in decimal, blanks, then the command, whose file name is the
/// process's name. Nothing where the line has another shape or the
/// identifier does not fit in 32 bits.
pub open spec fn listed_process(s: Seq<char>) -> Option<(u32, Seq<char>)> {
    let a = skip_blanks(s, 0);
    let b = skip_digits(s, a);
    let c = skip_blanks(s, b);
    if b == a || c == b || c >= s.len() || decimal_value(s, a, b) > u32::MAX {
        None
    } else {
        Some(
            (
                decimal_value(s, a, b) as u32,
                s.subrange(name_start(s, c, s.len() as int), s.len() as int),
            ),
        )
    }
}

/// Reads one line of a process listing made by `ps -o pid= -o comm=`.
pub fn parse_ps_line(line: &str) -> (r: Option<ProcessEntry>)
    ensures
        match listed_process(line@) {
            Some((pid, name)) => r matches Some(e) && e.pid == pid && e.name@ == name,
            None => r is None,
        },
{
    let ghost s = line@;
    let len = line.unicode_len();
    let mut i: usize = 0;
    while i < len && (line.get_char(i) == ' ' || line.get_char(i) == '\t')
        invariant
            s == line@,
            len == s.len(),
            i <= len,
            skip_blanks(s, i as int) == skip_blanks(s, 0),
        decreases len - i,
    {
        i = i + 1;
    }
    let a = i;
    let mut value: u64 = 0;
    let mut over = false;
    while i < len && '0' <= line.get_char(i) && line.get_char(i) <= '9'
        invariant
            s == line@,
            len == s.len(),
            a <= i <= len,
            a == skip_blanks(s, 0),
            skip_digits(s, i as int) == skip_digits(s, a as int),
            !over ==> value == decimal_value(s, a as int, i as int) && value <= u32::MAX,
            over ==> decimal_value(s, a as int, i as int) > u32::MAX,
        decreases len - i,
    {
        let c = line.get_char(i);
        let d = (c as u32 - '0' as u32) as u64;
        proof {
            let dv = decimal_value(s, a as int, i as int);
            assert(decimal_value(s, a as int, i + 1) == dv * 10 + digit_value(s[i as int]));
            assert(0 <= digit_value(s[i as int]) <= 9);
            if over {
                assert(dv * 10 + digit_value(s[i as int]) > u32::MAX) by (nonlinear_arith)
                    requires
                        dv > u32::MAX,
                        digit_value(s[i as int]) >= 0,
                ;
            }
        }
        if !over {
            let next = value * 10 + d;
            if next > 4294967295 {
                over = true;
            } else {
                value = next;
            }
        }
        i = i + 1;
    }
    let b = i;
    while i < len && (line.get_char(i) == ' ' || line.get_char(i) == '\t')
        invariant
            s == line@,
            len == s.len(),
            b <= i <= len,
            b == skip_digits(s, skip_blanks(s, 0)),
            skip_blanks(s, i as int) == skip_blanks(s, b as int),
        decreases len - i,
    {
        i = i + 1;
    }
    if b == a || i == b || i >= len || over {
        return None;
    }
    let mut j: usize = len;
    while j > i && line.get_char(j - 1) != '/'
        invariant
            s == line@,
            len == s.len(),
            i <= j <= len,
            name_start(s, i as int, j as int) == name_start(s, i as int, len as int),
        decreases j,
    {
        j = j - 1;
    }
    let name = line.substring_char(j, len);
    Some(ProcessEntry::new(value as u32, name))
}

/// The identifiers of the processes named `name`, in table order.
pub open spec fn pids_named_in(table: Seq<ProcessEntry>, name: Seq<char>) -> Seq<u32>
    decreases table.len(),
{
    if table.len() == 0 {
        Seq::empty()
    } else {
        let rest = pids_named_in(table.drop_last(), name);
        if table.last().name@ == name {
            rest.push(table.last().pid)
        } else {
            rest
        }
    }
}

/// The processes of the table whose identifier is not in `killed`.
pub open spec fn survivors(table: Seq<ProcessEntry>, killed: Seq<u32>) -> Seq<ProcessEntry> {
    table.filter(|e: ProcessEntry| !killed.contains(e.pid))
}

/// Whether some process of the table is named `name`.
pub open spec fn any_named(table: Seq<ProcessEntry>, name: Seq<char>) -> bool {
    exists|i: int| 0 <= i < table.len() && (#[trigger] table[i]).name@ == name
}

/// Every process named `name` has its identifier in `pids_named_in`, and
/// every identifier there belongs to a process of that name.
pub proof fn lemma_pids_named_in(table: Seq<ProcessEntry>, name: Seq<char>)
    ensures
        forall|i: int|
            0 <= i < table.len() && (#[trigger] table[i]).name@ == name ==> pids_named_in(
                table,
                name,
            ).contains(table[i].pid),
        forall|p: u32|
            #[trigger] pids_named_in(table, name).contains(p) ==> exists|i: int|
                0 <= i < table.len() && table[i].pid == p && table[i].name@ == name,
    decreases table.len(),
{
    if table.len() > 0 {
        let init = table.drop_last();
        lemma_pids_named_in(init, name);
        let rest = pids_named_in(init, name);
        assert forall|i: int|
            0 <= i < table.len() && (#[trigger] table[i]).name@ == name implies pids_named_in(
            table,
            name,
        ).contains(table[i].pid) by {
            if i < table.len() - 1 {
                assert(init[i] == table[i]);
                assert(rest.contains(table[i].pid));
                if table.last().name@ == name {
                    let j = choose|j: int| 0 <= j < rest.len() && rest[j] == table[i].pid;
                    assert(rest.push(table.last().pid)[j] == table[i].pid);
                }
            } else {
                assert(rest.push(table.last().pid)[rest.len() as int] == table[i].pid);
            }
        }
        assert forall|p: u32| #[trigger] pids_named_in(table, name).contains(p) implies exists|
            i: int,
        | 0 <= i < table.len() && table[i].pid == p && table[i].name@ == name by {
            if table.last().name@ == name {
                let s = rest.push(table.last().pid);
                let j = choose|j: int| 0 <= j < s.len() && s[j] == p;
                if j < rest.len() {
                    assert(rest[j] == p);
                    assert(rest.contains(p));
                    let i = choose|i: int| 0 <= i < init.len() && init[i].pid == p && init[i].name@ == name;
                    assert(table[i] == init[i]);
                } else {
                    assert(table[table.len() - 1].pid == p);
                }
            } else {
                let i = choose|i: int| 0 <= i < init.len() && init[i].pid == p && init[i].name@ == name;
                assert(table[i] == init[i]);
            }
        }
    }
}

/// The identifiers of every process in `table` named `name`, in table
/// order: the targets of a sweep.
pub fn pids_named(table: &Vec<ProcessEntry>, name: &str) -> (r: Vec<u32>)
    ensures
        r@ == pids_named_in(table@, name@),
{
    let mut r: Vec<u32> = Vec::new();
    let mut i: usize = 0;
    while i < table.len()
        invariant
            i <= table.len(),
            r@ == pids_named_in(table@.subrange(0, i as int), name@),
        decreases table.len() - i,
    {
        proof {
            assert(table@.subrange(0, i + 1).drop_last() =~= table@.subrange(0, i as int));
        }
        if same_text(table[i].name.as_str(), name) {
            r.push(table[i].pid);
        }
        i = i + 1;
    }
    proof {
        assert(table@.subrange(0, table.len() as int) =~= table@);
    }
    r
}

/// After a stop, the sweep kills every process named like the proxy in
/// whatever table the proxy's own kill left behind (so also where that kill
/// failed), and the browser is killed by its identifier. Where the launched
/// browser is the only process of the browser's name, no process of either
/// name survives those kills.
pub proof fn lemma_stop_leaves_no_process(
    table: Seq<ProcessEntry>,
    proxy_name: Seq<char>,
    browser_name: Seq<char>,
    browser_pid: u32,
)
    requires
        forall|i: int|
            0 <= i < table.len() && (#[trigger] table[i]).name@ == browser_name ==> table[i].pid
                == browser_pid,
    ensures
        ({
            let after = survivors(table, pids_named_in(table, proxy_name).push(browser_pid));
            !any_named(after, proxy_name) && !any_named(after, browser_name)
        }),
{
    let killed = pids_named_in(table, proxy_name).push(browser_pid);
    let after = survivors(table, killed);
    lemma_pids_named_in(table, proxy_name);
    assert forall|i: int| 0 <= i < after.len() implies (#[trigger] after[i]).name@ != proxy_name
        && after[i].name@ != browser_name by {
        let keep = |e: ProcessEntry| !killed.contains(e.pid);
        let e = after[i];
        table.lemma_filter_pred(keep, i);
        assert(after.contains(e));
        table.lemma_filter_contains_rev(keep, e);
        let k = choose|k: int| 0 <= k < table.len() && table[k] == e;
        if e.name@ == proxy_name {
            assert(pids_named_in(table, proxy_name).contains(table[k].pid));
            let j = choose|j: int|
                0 <= j < pids_named_in(table, proxy_name).len() && pids_named_in(
                    table,
                    proxy_name,
                )[j] == e.pid;
            assert(killed[j] == e.pid);
        }
        if e.name@ == browser_name {
            assert(killed[killed.len() - 1] == e.pid);
        }
    }
}

} // verus!
