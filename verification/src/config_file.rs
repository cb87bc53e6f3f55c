//! Writing the configuration into its file: the changes to make to what
//! the file holds, so that comments, order and keys it does not know stay.
use crate::config::{AppConfig, ServerEntry, UpdateFrequency};
use vstd::prelude::*;

verus! {

/// A change to the configuration file.
#[derive(Debug)]
pub enum FileEdit {
    /// Set a top-level key to a text.
    SetText(&'static str, String),
    /// Set a top-level key to an integer.
    SetInteger(&'static str, i64),
    /// Remove a top-level key.
    Remove(&'static str),
    /// Make sure the `servers` table is there.
    OpenServers,
    /// Remove a server's table.
    RemoveServer(String),
    /// Set a field of a server's table to a text (creating the table).
    SetServerText(String, &'static str, String),
    /// Remove a field of a server's table.
    RemoveServerField(String, &'static str),
    /// Set a field of a server's table to a flag.
    SetServerFlag(String, &'static str, bool),
}

/// A change to the configuration file, as text.
pub enum EditText {
    SetText(Seq<char>, Seq<char>),
    SetInteger(Seq<char>, i64),
    Remove(Seq<char>),
    OpenServers,
    RemoveServer(Seq<char>),
    SetServerText(Seq<char>, Seq<char>, Seq<char>),
    RemoveServerField(Seq<char>, Seq<char>),
    SetServerFlag(Seq<char>, Seq<char>, bool),
}

/// A change as text.
pub open spec fn edit_text(e: FileEdit) -> EditText {
    match e {
        FileEdit::SetText(k, v) => EditText::SetText(k@, v@),
        FileEdit::SetInteger(k, v) => EditText::SetInteger(k@, v),
        FileEdit::Remove(k) => EditText::Remove(k@),
        FileEdit::OpenServers => EditText::OpenServers,
        FileEdit::RemoveServer(n) => EditText::RemoveServer(n@),
        FileEdit::SetServerText(n, f, v) => EditText::SetServerText(n@, f@, v@),
        FileEdit::RemoveServerField(n, f) => EditText::RemoveServerField(n@, f@),
        FileEdit::SetServerFlag(n, f, v) => EditText::SetServerFlag(n@, f@, v),
    }
}

/// Changes as text.
pub open spec fn edit_texts(v: Seq<FileEdit>) -> Seq<EditText> {
    v.map_values(|e: FileEdit| edit_text(e))
}

/// A server table already in the file: its name, and whether it is a table
/// (a key that holds something else is left alone).
pub struct FileServer {
    pub name: String,
    pub is_table: bool,
}

/// Whether the file has an entry named `n` under `servers` that is not a
/// table.
pub open spec fn file_non_table(file: Seq<FileServer>, n: Seq<char>) -> bool {
    exists|i: int| 0 <= i < file.len() && #[trigger] file[i].name@ == n && !file[i].is_table
}

/// The changes for the server `n` with entry `e`: its URL, its saved user
/// name and password (removed where none is saved), and whether to check
/// certificates; none when the file holds something other than a table
/// under its name.
pub open spec fn server_edits(file: Seq<FileServer>, n: Seq<char>, e: ServerEntry) -> Seq<EditText> {
    if file_non_table(file, n) {
        Seq::empty()
    } else {
        seq![EditText::SetServerText(n, "url"@, e.url@)] + (match e.username {
            Some(u) => seq![EditText::SetServerText(n, "username"@, u@)],
            None => seq![EditText::RemoveServerField(n, "username"@)],
        }) + (match e.password {
            Some(p) => seq![EditText::SetServerText(n, "password"@, p@)],
            None => seq![EditText::RemoveServerField(n, "password"@)],
        }) + seq![EditText::SetServerFlag(n, "verify_ssl"@, e.verify_ssl)]
    }
}

/// The changes for the servers `names` (with `entries`), in order.
pub open spec fn servers_edits(
    file: Seq<FileServer>,
    names: Seq<Seq<char>>,
    entries: Seq<ServerEntry>,
) -> Seq<EditText>
    decreases names.len(),
{
    if names.len() == 0 {
        Seq::empty()
    } else {
        servers_edits(file, names.drop_last(), entries.drop_last()) + server_edits(
            file,
            names.last(),
            entries.last(),
        )
    }
}

/// The removals of the servers the file has and the configuration has not,
/// in the file's order.
pub open spec fn removals(file: Seq<FileServer>, keep: Seq<Seq<char>>) -> Seq<EditText>
    decreases file.len(),
{
    if file.len() == 0 {
        Seq::empty()
    } else {
        removals(file.drop_last(), keep) + if keep.contains(file.last().name@) {
            Seq::empty()
        } else {
            seq![EditText::RemoveServer(file.last().name@)]
        }
    }
}

/// The changes to the top-level keys: the default server (removed when
/// none), the update-check setting (removed when it is the default weekly
/// one), and the time of the last check (removed when none).
pub open spec fn top_edits(c: AppConfig) -> Seq<EditText> {
    (match c.default_server {
        Some(s) => seq![EditText::SetText("default_server"@, s@)],
        None => seq![EditText::Remove("default_server"@)],
    }) + (if c.update_check != UpdateFrequency::Weekly {
        seq![EditText::SetText("update_check"@, c.update_check.config_text())]
    } else {
        seq![EditText::Remove("update_check"@)]
    }) + match c.last_update_check {
        Some(t) => seq![EditText::SetInteger("last_update_check"@, t as i64)],
        None => seq![EditText::Remove("last_update_check"@)],
    }
}

/// The changes that write the configuration `c` into a file whose
/// `servers` entries are `file` (`None` when `servers` holds something other
/// than a table): the top-level keys (`top_edits`); no servers removes the
/// `servers` table; otherwise the table is opened, the servers the
/// configuration no longer has are removed, and each server is written.
pub open spec fn file_edits(c: AppConfig, file: Option<Seq<FileServer>>) -> Seq<EditText> {
    top_edits(c) + if c.servers.keys().len() == 0 {
        seq![EditText::Remove("servers"@)]
    } else {
        seq![EditText::OpenServers] + match file {
            Some(f) => removals(f, c.servers.keys()) + servers_edits(
                f,
                c.servers.keys(),
                c.servers.entries(),
            ),
            None => Seq::empty(),
        }
    }
}

fn push_edit(v: &mut Vec<FileEdit>, e: FileEdit)
    ensures
        edit_texts(final(v)@) == edit_texts(old(v)@).push(edit_text(e)),
{
    let ghost before = v@;
    v.push(e);
    proof {
        assert(edit_texts(v@) =~= edit_texts(before).push(edit_text(e)));
    }
}

fn find_file_server(file: &Vec<FileServer>, name: &str) -> (r: bool)
    ensures
        r == file_non_table(file@, name@),
{
    let mut non_table = false;
    let mut i: usize = 0;
    while i < file.len()
        invariant
            i <= file@.len(),
            non_table == (exists|j: int|
                0 <= j < i && #[trigger] file@[j].name@ == name@ && !file@[j].is_table),
        decreases file.len() - i,
    {
        if !file[i].is_table && crate::text_util::text_eq(file[i].name.as_str(), name) {
            non_table = true;
        }
        proof {
            if non_table {
                let j = choose|j: int|
                    0 <= j < i + 1 && #[trigger] file@[j].name@ == name@ && !file@[j].is_table;
                assert(0 <= j < i + 1 && file@[j].name@ == name@ && !file@[j].is_table);
            }
        }
        i = i + 1;
    }
    non_table
}

fn push_server(v: &mut Vec<FileEdit>, file: &Vec<FileServer>, name: &String, e: &ServerEntry)
    ensures
        edit_texts(final(v)@) == edit_texts(old(v)@) + server_edits(file@, name@, *e),
{
    let ghost before = edit_texts(v@);
    let non_table = find_file_server(file, name.as_str());
    if non_table {
        proof {
            assert(before + Seq::<EditText>::empty() =~= before);
        }
        return ;
    }
    push_edit(v, FileEdit::SetServerText(name.clone(), "url", e.url.clone()));
    match &e.username {
        Some(u) => push_edit(v, FileEdit::SetServerText(name.clone(), "username", u.clone())),
        None => push_edit(v, FileEdit::RemoveServerField(name.clone(), "username")),
    }
    match &e.password {
        Some(p) => push_edit(v, FileEdit::SetServerText(name.clone(), "password", p.clone())),
        None => push_edit(v, FileEdit::RemoveServerField(name.clone(), "password")),
    }
    push_edit(v, FileEdit::SetServerFlag(name.clone(), "verify_ssl", e.verify_ssl));
    proof {
        assert(edit_texts(v@) =~= before + server_edits(file@, name@, *e));
    }
}

fn push_top(v: &mut Vec<FileEdit>, c: &AppConfig)
    ensures
        edit_texts(final(v)@) == edit_texts(old(v)@) + top_edits(*c),
{
    let ghost before = edit_texts(v@);
    match &c.default_server {
        Some(s) => push_edit(v, FileEdit::SetText("default_server", s.clone())),
        None => push_edit(v, FileEdit::Remove("default_server")),
    }
    if c.update_check != UpdateFrequency::Weekly {
        push_edit(v, FileEdit::SetText("update_check", String::from_str(c.update_check.config_name())));
    } else {
        push_edit(v, FileEdit::Remove("update_check"));
    }
    match c.last_update_check {
        Some(t) => push_edit(v, FileEdit::SetInteger("last_update_check", t as i64)),
        None => push_edit(v, FileEdit::Remove("last_update_check")),
    }
    proof {
        assert(edit_texts(v@) =~= before + top_edits(*c));
    }
}

fn push_removals(v: &mut Vec<FileEdit>, f: &Vec<FileServer>, names: &Vec<String>, keys: Ghost<Seq<Seq<char>>>)
    requires
        names@.len() == keys@.len(),
        forall|k: int| 0 <= k < names@.len() ==> #[trigger] names@[k]@ == keys@[k],
    ensures
        edit_texts(final(v)@) == edit_texts(old(v)@) + removals(f@, keys@),
{
    let ghost opened = edit_texts(v@);
    let mut i: usize = 0;
    proof {
        assert(f@.take(0) =~= Seq::<FileServer>::empty());
        assert(opened + removals(f@.take(0), keys@) =~= opened);
    }
    while i < f.len()
        invariant
            i <= f@.len(),
            names@.len() == keys@.len(),
            forall|k: int| 0 <= k < names@.len() ==> #[trigger] names@[k]@ == keys@[k],
            edit_texts(v@) == opened + removals(f@.take(i as int), keys@),
        decreases f.len() - i,
    {
        proof {
            assert(f@.take(i + 1).drop_last() =~= f@.take(i as int));
        }
        let mut keep = false;
        let mut j: usize = 0;
        while j < names.len()
            invariant
                j <= names@.len(),
                i < f@.len(),
                names@.len() == keys@.len(),
                forall|k: int| 0 <= k < names@.len() ==> #[trigger] names@[k]@ == keys@[k],
                keep == (exists|k: int| 0 <= k < j && #[trigger] keys@[k] == f@[i as int].name@),
            decreases names.len() - j,
        {
            if crate::text_util::text_eq(names[j].as_str(), f[i].name.as_str()) {
                keep = true;
            }
            proof {
                if keep {
                    let k = choose|k: int| 0 <= k < j + 1 && #[trigger] keys@[k] == f@[i as int].name@;
                    assert(0 <= k < j + 1 && keys@[k] == f@[i as int].name@);
                }
            }
            j = j + 1;
        }
        proof {
            if keep {
                let k = choose|k: int| 0 <= k < j && #[trigger] keys@[k] == f@[i as int].name@;
                assert(keys@.contains(f@[i as int].name@));
            } else {
                assert(!keys@.contains(f@[i as int].name@));
            }
        }
        let ghost prev = edit_texts(v@);
        if !keep {
            push_edit(v, FileEdit::RemoveServer(f[i].name.clone()));
        }
        proof {
            let step = if keys@.contains(f@[i as int].name@) {
                Seq::<EditText>::empty()
            } else {
                seq![EditText::RemoveServer(f@[i as int].name@)]
            };
            assert(edit_texts(v@) =~= prev + step);
            assert(removals(f@.take(i + 1), keys@) == removals(f@.take(i as int), keys@) + step);
            assert(opened + removals(f@.take(i as int), keys@) + step =~= opened + removals(
                f@.take(i + 1),
                keys@,
            ));
        }
        i = i + 1;
    }
    proof {
        assert(f@.take(f@.len() as int) =~= f@);
    }
}

fn push_servers(v: &mut Vec<FileEdit>, f: &Vec<FileServer>, c: &AppConfig)
    requires
        c.wf(),
    ensures
        edit_texts(final(v)@) == edit_texts(old(v)@) + servers_edits(
            f@,
            c.servers.keys(),
            c.servers.entries(),
        ),
{
    let ghost removed = edit_texts(v@);
    let names = c.servers.names();
    let mut k: usize = 0;
    proof {
        assert(c.servers.keys().take(0) =~= Seq::<Seq<char>>::empty());
        assert(c.servers.entries().take(0) =~= Seq::<ServerEntry>::empty());
        assert(removed + Seq::<EditText>::empty() =~= removed);
    }
    while k < names.len()
        invariant
            k <= names@.len(),
            c.wf(),
            names@.len() == c.servers.keys().len(),
            forall|m: int| 0 <= m < names@.len() ==> #[trigger] names@[m]@ == c.servers.keys()[m],
            edit_texts(v@) == removed + servers_edits(
                f@,
                c.servers.keys().take(k as int),
                c.servers.entries().take(k as int),
            ),
        decreases names.len() - k,
    {
        let ghost keys_k = c.servers.keys().take(k + 1);
        let ghost entries_k = c.servers.entries().take(k + 1);
        proof {
            assert(keys_k.drop_last() =~= c.servers.keys().take(k as int));
            assert(entries_k.drop_last() =~= c.servers.entries().take(k as int));
            assert(keys_k.last() == c.servers.keys()[k as int]);
            assert(entries_k.last() == c.servers.entries()[k as int]);
        }
        match c.servers.entry_at(k) {
            Some(e) => {
                let ghost prev = edit_texts(v@);
                push_server(v, f, &names[k], e);
                proof {
                    assert(servers_edits(f@, keys_k, entries_k) == servers_edits(
                        f@,
                        c.servers.keys().take(k as int),
                        c.servers.entries().take(k as int),
                    ) + server_edits(f@, c.servers.keys()[k as int], c.servers.entries()[k as int]));
                    assert(edit_texts(v@) =~= removed + servers_edits(f@, keys_k, entries_k));
                }
            },
            None => {},
        }
        k = k + 1;
    }
    proof {
        assert(c.servers.keys().take(k as int) =~= c.servers.keys());
        assert(c.servers.entries().take(k as int) =~= c.servers.entries());
    }
}

/// The changes that write the configuration into its file (`file_edits`).
pub fn config_file_edits(c: &AppConfig, file: Option<Vec<FileServer>>) -> (r: Vec<FileEdit>)
    requires
        c.wf(),
    ensures
        edit_texts(r@) == file_edits(
            *c,
            match file {
                Some(f) => Some(f@),
                None => None,
            },
        ),
{
    let mut v: Vec<FileEdit> = Vec::new();
    proof {
        assert(edit_texts(v@) =~= Seq::<EditText>::empty());
    }
    push_top(&mut v, c);
    proof {
        assert(Seq::<EditText>::empty() + top_edits(*c) =~= top_edits(*c));
    }
    let ghost head = edit_texts(v@);
    if c.servers.is_empty() {
        push_edit(&mut v, FileEdit::Remove("servers"));
        return v;
    }
    push_edit(&mut v, FileEdit::OpenServers);
    match file {
        Some(f) => {
            let names = c.servers.names();
            push_removals(&mut v, &f, &names, Ghost(c.servers.keys()));
            push_servers(&mut v, &f, c);
            proof {
                assert(edit_texts(v@) =~= file_edits(*c, Some(f@)));
            }
        },
        None => {},
    }
    v
}

} // verus!
