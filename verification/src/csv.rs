use vstd::prelude::*;
use vstd::string::StringExecFns;

use crate::strutil::{dec_str, string_push_char, usize_to_string};
use crate::task::{Task, TaskV};

verus! {

/// A field must be quoted when it holds a separator, a quote or a line break.
pub open spec fn needs_quoting(s: Seq<char>) -> bool {
    s.contains(',') || s.contains('"') || s.contains('\n') || s.contains('\r')
}

/// A field's text with every quote doubled.
pub open spec fn escape_quotes(s: Seq<char>) -> Seq<char>
    decreases s.len(),
{
    if s.len() == 0 {
        s
    } else {
        (if s.first() == '"' {
            seq!['"', '"']
        } else {
            seq![s.first()]
        }) + escape_quotes(s.drop_first())
    }
}

/// One field as it stands in the record: bare, or quoted with inner quotes
/// doubled when it holds a separator, a quote or a line break.
pub open spec fn csv_field(s: Seq<char>) -> Seq<char> {
    if needs_quoting(s) {
        seq!['"'] + escape_quotes(s) + seq!['"']
    } else {
        s
    }
}

/// One record: the position, the title and the status, separated by commas
/// and closed by a line break.
pub open spec fn csv_record(index: nat, t: TaskV) -> Seq<char> {
    dec_str(index) + seq![','] + csv_field(t.title) + seq![','] + csv_field(t.status) + seq!['\n']
}

/// The records of a task list, numbered from `index` on.
pub open spec fn csv_of(tasks: Seq<TaskV>, index: nat) -> Seq<char>
    decreases tasks.len(),
{
    if tasks.len() == 0 {
        Seq::<char>::empty()
    } else {
        csv_record(index, tasks.first()) + csv_of(tasks.drop_first(), index + 1)
    }
}

/// Whether a field must be quoted.
fn field_needs_quoting(s: &str) -> (r: bool)
    ensures
        r == needs_quoting(s@),
{
    let n = s.unicode_len();
    let mut i: usize = 0;
    while i < n
        invariant
            n == s@.len(),
            i <= n,
            forall|j: int|
                0 <= j < i ==> !(s@[j] == ',' || s@[j] == '"' || s@[j] == '\n' || s@[j] == '\r'),
        decreases n - i,
    {
        let c = s.get_char(i);
        if c == ',' || c == '"' || c == '\n' || c == '\r' {
            proof {
                assert(s@[i as int] == c);
            }
            return true;
        }
        i = i + 1;
    }
    proof {
        if needs_quoting(s@) {
            if s@.contains(',') {
                let j = choose|j: int| 0 <= j < s@.len() && s@[j] == ',';
                assert(false);
            } else if s@.contains('"') {
                let j = choose|j: int| 0 <= j < s@.len() && s@[j] == '"';
                assert(false);
            } else if s@.contains('\n') {
                let j = choose|j: int| 0 <= j < s@.len() && s@[j] == '\n';
                assert(false);
            } else {
                let j = choose|j: int| 0 <= j < s@.len() && s@[j] == '\r';
                assert(false);
            }
        }
    }
    false
}

/// A field's text with every quote doubled.
fn escape_field(s: &str) -> (r: String)
    ensures
        r@ == escape_quotes(s@),
{
    let n = s.unicode_len();
    let mut r = String::new();
    let mut i: usize = 0;
    assert(s@.skip(0) =~= s@);
    while i < n
        invariant
            n == s@.len(),
            i <= n,
            escape_quotes(s@) =~= r@ + escape_quotes(s@.skip(i as int)),
        decreases n - i,
    {
        let c = s.get_char(i);
        let ghost r0 = r@;
        proof {
            assert(s@.skip(i as int).first() == s@[i as int]);
            assert(s@.skip(i as int).drop_first() =~= s@.skip(i as int + 1));
        }
        if c == '"' {
            string_push_char(&mut r, '"');
            string_push_char(&mut r, '"');
            proof {
                assert(r@ =~= r0 + seq!['"', '"']);
            }
        } else {
            string_push_char(&mut r, c);
            proof {
                assert(r@ =~= r0 + seq![c]);
            }
        }
        i = i + 1;
    }
    proof {
        assert(s@.skip(n as int) =~= Seq::<char>::empty());
        assert(r@ + Seq::<char>::empty() =~= r@);
    }
    r
}

/// One field as it stands in the record.
fn csv_field_text(s: &str) -> (r: String)
    ensures
        r@ == csv_field(s@),
{
    if field_needs_quoting(s) {
        proof {
            reveal_strlit("\"");
        }
        let mut r = String::from_str("\"");
        let escaped = escape_field(s);
        r.append(escaped.as_str());
        r.append("\"");
        proof {
            assert("\""@ =~= seq!['"']);
            assert(r@ =~= csv_field(s@));
        }
        r
    } else {
        String::from_str(s)
    }
}

/// Serialize the decrypted task list as comma-separated text, one record per
/// task: position, title, status. The caller takes the text to its file.
pub fn write_tasks_into_csv_file(task_list: &Vec<Task>) -> (r: String)
    ensures
        r@ == csv_of(task_list@.map_values(|t: Task| t@), 0),
{
    let ghost tasks = task_list@.map_values(|t: Task| t@);
    let mut out = String::new();
    let n = task_list.len();
    proof {
        assert(tasks.skip(0) =~= tasks);
    }
    for index in 0..n
        invariant
            n == task_list@.len(),
            tasks == task_list@.map_values(|t: Task| t@),
            csv_of(tasks, 0) =~= out@ + csv_of(tasks.skip(index as int), index as nat),
    {
        let t = &task_list[index];
        out.append(usize_to_string(index).as_str());
        out.append(",");
        out.append(csv_field_text(t.title.as_str()).as_str());
        out.append(",");
        out.append(csv_field_text(t.status.as_str()).as_str());
        out.append("\n");
        proof {
            reveal_strlit(",");
            reveal_strlit("\n");
            assert(","@ =~= seq![',']);
            assert("\n"@ =~= seq!['\n']);
            assert(tasks.skip(index as int).first() == tasks[index as int]);
            assert(tasks.skip(index as int).drop_first() =~= tasks.skip(index as int + 1));
            assert(csv_of(tasks.skip(index as int), index as nat) == csv_record(
                index as nat,
                tasks[index as int],
            ) + csv_of(tasks.skip(index as int + 1), (index + 1) as nat));
        }
    }
    proof {
        assert(tasks.skip(n as int) =~= Seq::<TaskV>::empty());
        assert(out@ + Seq::<char>::empty() =~= out@);
    }
    out
}

} // verus!
