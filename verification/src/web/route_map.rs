//! The routes of a site: which file answers which request target.
use vstd::prelude::*;

verus! {

/// The value of the last entry with the key, as a map built from the
/// entries in order holds it.
pub open spec fn spec_lookup(entries: Seq<(Seq<char>, Seq<char>)>, key: Seq<char>) -> Option<Seq<char>>
    decreases entries.len(),
{
    if entries.len() == 0 {
        None
    } else if entries.last().0 == key {
        Some(entries.last().1)
    } else {
        spec_lookup(entries.drop_last(), key)
    }
}

/// The texts of the route entries.
pub open spec fn entry_texts(entries: Seq<(String, String)>) -> Seq<(Seq<char>, Seq<char>)> {
    entries.map_values(|e: (String, String)| (e.0@, e.1@))
}

/// Where a site lives and the routes found in it.
pub struct SiteConfiguration {
    /// The directory of the site.
    pub root: String,
    /// The request targets and the files that answer them; a later entry
    /// for a target replaces an earlier one.
    pub map: Vec<(String, String)>,
}

impl SiteConfiguration {
    pub fn new(root: &str, map: Vec<(String, String)>) -> (r: Self)
        ensures
            r.root@ == root@,
            r.map@ == map@,
    {
        Self { root: root.to_owned(), map }
    }
}

/// The routes of a site.
pub struct CurdsWebRouteMap {
    pub configuration: SiteConfiguration,
}

fn same_text(a: &String, b: &str) -> (r: bool)
    ensures
        r == (a@ == b@),
{
    let s = a.as_str();
    let n = s.unicode_len();
    if n != b.unicode_len() {
        return false;
    }
    let mut i: usize = 0;
    while i < n
        invariant
            n == s@.len(),
            n == b@.len(),
            s@ == a@,
            i <= n,
            forall|j: int| 0 <= j < i ==> s@[j] == b@[j],
        decreases n - i,
    {
        if s.get_char(i) != b.get_char(i) {
            return false;
        }
        i = i + 1;
    }
    assert(s@ =~= b@);
    true
}

impl CurdsWebRouteMap {
    pub fn new(configuration: SiteConfiguration) -> (r: Self)
        ensures
            r.configuration == configuration,
    {
        Self { configuration }
    }

    /// The file that answers a request target, if any.
    pub fn retrieve(&self, target: &str) -> (r: Option<String>)
        ensures
            r matches Some(path) ==> spec_lookup(entry_texts(self.configuration.map@), target@) == Some(
                path@,
            ),
            r is None ==> spec_lookup(entry_texts(self.configuration.map@), target@) is None,
    {
        let ghost entries = entry_texts(self.configuration.map@);
        let mut i: usize = self.configuration.map.len();
        assert(entries.take(i as int) =~= entries);
        while i > 0
            invariant
                i <= self.configuration.map@.len(),
                entries == entry_texts(self.configuration.map@),
                spec_lookup(entries, target@) == spec_lookup(entries.take(i as int), target@),
            decreases i,
        {
            let ghost prefix = entries.take(i as int);
            assert(prefix.drop_last() =~= entries.take(i - 1));
            assert(prefix.last() == (self.configuration.map@[i - 1].0@, self.configuration.map@[i
                - 1].1@));
            if same_text(&self.configuration.map[i - 1].0, target) {
                return Some(self.configuration.map[i - 1].1.clone());
            }
            i = i - 1;
        }
        assert(entries.take(0) =~= seq![]);
        None
    }
}

/// `regex::escape`, `regex::Regex::new` and `regex::Regex::captures`: what
/// the pattern `^{root escaped}(.*)$` captures of `path`. The escaped root
/// matches itself alone, `^` and `$` match the ends of the text, and `.`
/// matches any character but a line feed, so a capture is the text that
/// follows `root` where `path` begins with it and no line feed follows,
/// and there is one wherever the pattern compiles. Whether it compiles (the
/// crate refuses patterns beyond its size limit) depends on the root alone
/// and is only named.
#[verifier::external_body]
fn capture_below_root(root: &str, path: &str) -> (r: Option<String>)
    ensures
        r matches Some(rest) ==> path@ == root@ + rest@ && !rest@.contains('\n'),
        !below_root(path@, root@) ==> r is None,
        below_root(path@, root@) && root_pattern_compiles(root@) ==> r is Some,
        r is Some ==> root_pattern_compiles(root@),
{
    let pattern = regex::Regex::new(&format!("^{}(.*)$", regex::escape(root))).ok()?;
    pattern.captures(path).and_then(|captures| captures.get(1)).map(|found| found.as_str().to_owned())
}

/// Whether `regex::Regex::new` compiles the pattern `^{root escaped}(.*)$`.
pub uninterp spec fn root_pattern_compiles(root: Seq<char>) -> bool;

/// Whether `path` begins with `root` and no line feed follows it.
pub open spec fn below_root(path: Seq<char>, root: Seq<char>) -> bool {
    &&& root.len() <= path.len()
    &&& path.take(root.len() as int) == root
    &&& !path.skip(root.len() as int).contains('\n')
}

/// The request target that the text below the root names: backslashes
/// turned into slashes; the root itself is `/`.
pub open spec fn target_text(rest: Seq<char>) -> Seq<char> {
    let replaced = rest.map_values(|c: char| if c == '\\' { '/' } else { c });
    if replaced.len() == 0 { seq!['/'] } else { replaced }
}

/// The request target that `rest`, the text of a path below the site's
/// root, names.
pub fn target_from_rest(rest: &str) -> (r: String)
    ensures
        r@ == target_text(rest@),
{
    let n = rest.unicode_len();
    let mut target = String::new();
    let mut i: usize = 0;
    proof {
        reveal_strlit("/");
    }
    while i < n
        invariant
            n == rest@.len(),
            i <= n,
            target@ == rest@.take(i as int).map_values(
                |c: char| if c == '\\' { '/' } else { c },
            ),
        decreases n - i,
    {
        proof {
            reveal_strlit("/");
        }
        let c = rest.get_char(i);
        let piece = if c == '\\' { "/" } else { rest.substring_char(i, i + 1) };
        let ghost before = target@;
        assert(piece@ =~= seq![if c == '\\' { '/' } else { c }]);
        assert(rest@.take(i + 1) =~= rest@.take(i as int).push(c));
        target.append(piece);
        i = i + 1;
        assert(target@ =~= rest@.take(i as int).map_values(
            |c: char| if c == '\\' { '/' } else { c },
        ));
    }
    assert(rest@.take(n as int) =~= rest@);
    if n == 0 {
        String::from_str("/")
    } else {
        target
    }
}

/// The request target of the file at `path` (written out in full) in the
/// site at `root`: what follows the root, by the pattern the site's root
/// gives. `None` where `path` does not lie below `root`; a target wherever
/// it does and the root's pattern compiles.
pub fn generate_target(path: &str, root: &str) -> (r: Option<String>)
    ensures
        r matches Some(target) ==> below_root(path@, root@) && target@ == target_text(
            path@.skip(root@.len() as int),
        ),
        !below_root(path@, root@) ==> r is None,
        below_root(path@, root@) && root_pattern_compiles(root@) ==> r is Some,
{
    match capture_below_root(root, path) {
        Some(rest) => {
            assert(path@.take(root@.len() as int) =~= root@);
            assert(path@.skip(root@.len() as int) =~= rest@);
            Some(target_from_rest(rest.as_str()))
        },
        None => None,
    }
}

/// An entry of a site's directory, its path written out in full.
pub enum SiteEntry {
    File(String),
    Directory(SiteDirectory),
}

/// A directory of a site: its path written out in full, the path of the
/// index file that answers for it, and its entries.
pub struct SiteDirectory {
    pub path: String,
    pub index: String,
    pub entries: Vec<SiteEntry>,
}

/// The routes of a directory: the directory itself, answered by its index
/// file, then the routes of its entries in their order.
pub open spec fn directory_routes(directory: SiteDirectory, root: Seq<char>) -> Seq<
    (Seq<char>, Seq<char>),
>
    decreases directory, 0nat,
{
    seq![(target_text(directory.path@.skip(root.len() as int)), directory.index@)]
        + entries_routes(directory.entries@, root)
}

pub open spec fn entries_routes(entries: Seq<SiteEntry>, root: Seq<char>) -> Seq<
    (Seq<char>, Seq<char>),
>
    decreases entries, 0nat,
{
    if entries.len() == 0 {
        seq![]
    } else {
        entries_routes(entries.drop_last(), root) + entry_routes(entries.last(), root)
    }
}

/// The routes of an entry: a file answers for itself, a directory as above.
pub open spec fn entry_routes(entry: SiteEntry, root: Seq<char>) -> Seq<(Seq<char>, Seq<char>)>
    decreases entry, 0nat,
{
    match entry {
        SiteEntry::File(path) => seq![(target_text(path@.skip(root.len() as int)), path@)],
        SiteEntry::Directory(directory) => directory_routes(directory, root),
    }
}

/// Whether every path of a directory lies below the root.
pub open spec fn directory_below_root(directory: SiteDirectory, root: Seq<char>) -> bool
    decreases directory, 0nat,
{
    below_root(directory.path@, root) && entries_below_root(directory.entries@, root)
}

pub open spec fn entries_below_root(entries: Seq<SiteEntry>, root: Seq<char>) -> bool
    decreases entries, 0nat,
{
    if entries.len() == 0 {
        true
    } else {
        entries_below_root(entries.drop_last(), root) && entry_below_root(entries.last(), root)
    }
}

pub open spec fn entry_below_root(entry: SiteEntry, root: Seq<char>) -> bool
    decreases entry, 0nat,
{
    match entry {
        SiteEntry::File(path) => below_root(path@, root),
        SiteEntry::Directory(directory) => directory_below_root(directory, root),
    }
}

/// The routes of `directory` in the site at `root`: the directory answered
/// by its index file, then its files and, in turn, its subdirectories, in
/// the order of its entries. `None` where a path does not lie below `root`;
/// the routes wherever every path does and the root's pattern compiles.
pub fn route_directory(directory: &SiteDirectory, root: &str) -> (r: Option<Vec<(String, String)>>)
    ensures
        r matches Some(routes) ==> directory_below_root(*directory, root@) && entry_texts(routes@)
            == directory_routes(*directory, root@),
        !directory_below_root(*directory, root@) ==> r is None,
        directory_below_root(*directory, root@) && root_pattern_compiles(root@) ==> r is Some,
    decreases directory, 0nat,
{
    let target = match generate_target(directory.path.as_str(), root) {
        Some(target) => target,
        None => return None,
    };
    let mut routes: Vec<(String, String)> = Vec::new();
    routes.push((target, directory.index.clone()));
    let n = directory.entries.len();
    let mut i: usize = 0;
    assert(directory.entries@.take(0) =~= seq![]);
    while i < n
        invariant
            n == directory.entries@.len(),
            i <= n,
            below_root(directory.path@, root@),
            entries_below_root(directory.entries@.take(i as int), root@),
            directory_below_root(*directory, root@) ==> entries_below_root(
                directory.entries@,
                root@,
            ),
            entry_texts(routes@) == seq![
                (target_text(directory.path@.skip(root@.len() as int)), directory.index@),
            ] + entries_routes(directory.entries@.take(i as int), root@),
        decreases n - i,
    {
        let ghost before = routes@;
        let ghost after = directory.entries@.take(i + 1);
        assert(after.drop_last() =~= directory.entries@.take(i as int));
        assert(after.last() == directory.entries@[i as int]);
        proof {
            if directory_below_root(*directory, root@) {
                lemma_entry_below_root(directory.entries@, root@, i as int);
            }
        }
        match &directory.entries[i] {
            SiteEntry::File(path) => {
                let target = match generate_target(path.as_str(), root) {
                    Some(target) => target,
                    None => return None,
                };
                routes.push((target, path.clone()));
                assert(entry_below_root(directory.entries@[i as int], root@));
                assert(entry_texts(routes@) =~= entry_texts(before) + entry_routes(
                    directory.entries@[i as int],
                    root@,
                ));
            },
            SiteEntry::Directory(inner) => {
                let mut inner_routes = match route_directory(inner, root) {
                    Some(inner_routes) => inner_routes,
                    None => return None,
                };
                assert(entry_below_root(directory.entries@[i as int], root@));
                let ghost added = inner_routes@;
                routes.append(&mut inner_routes);
                assert(entry_texts(routes@) =~= entry_texts(before) + entry_texts(added));
            },
        }
        assert(entries_routes(after, root@) == entries_routes(
            directory.entries@.take(i as int),
            root@,
        ) + entry_routes(directory.entries@[i as int], root@));
        assert(entry_texts(routes@) =~= seq![
            (target_text(directory.path@.skip(root@.len() as int)), directory.index@),
        ] + entries_routes(after, root@));
        i = i + 1;
    }
    assert(directory.entries@.take(n as int) =~= directory.entries@);
    Some(routes)
}

/// The site's root directory is served at `/` by its index file, before any
/// other route.
pub proof fn law_root_is_served_at_slash(directory: SiteDirectory, root: Seq<char>)
    requires
        directory.path@ == root,
    ensures
        directory_routes(directory, root)[0] == (seq!['/'], directory.index@),
{
    assert(directory.path@.skip(root.len() as int) =~= seq![]);
    assert(directory.path@.skip(root.len() as int).map_values(
        |c: char| if c == '\\' { '/' } else { c },
    ) =~= seq![]);
}

/// Where all entries lie below the root, so does each.
proof fn lemma_entry_below_root(entries: Seq<SiteEntry>, root: Seq<char>, i: int)
    requires
        entries_below_root(entries, root),
        0 <= i < entries.len(),
    ensures
        entry_below_root(entries[i], root),
    decreases entries.len(),
{
    if i < entries.len() - 1 {
        lemma_entry_below_root(entries.drop_last(), root, i);
        assert(entries.drop_last()[i] == entries[i]);
    }
}

/// A lookup matches targets exactly: it answers with the file of the last
/// entry whose target equals the requested one, and with nothing where no
/// entry's target equals it; an entry whose target merely begins with the
/// requested one never answers for it.
pub proof fn law_lookup_answers_the_last_exact_entry(
    entries: Seq<(Seq<char>, Seq<char>)>,
    key: Seq<char>,
)
    ensures
        forall|i: int|
            #![trigger entries[i]]
            0 <= i < entries.len() && entries[i].0 == key && (forall|j: int|
                i < j < entries.len() ==> entries[j].0 != key) ==> spec_lookup(entries, key) == Some(
                entries[i].1,
            ),
        (forall|i: int| 0 <= i < entries.len() ==> entries[i].0 != key) ==> spec_lookup(entries, key)
            is None,
        spec_lookup(entries, key) matches Some(path) ==> exists|i: int|
            0 <= i < entries.len() && entries[i] == (key, path),
    decreases entries.len(),
{
    if entries.len() > 0 {
        let rest = entries.drop_last();
        law_lookup_answers_the_last_exact_entry(rest, key);
        assert forall|i: int|
            #![trigger entries[i]]
            0 <= i < entries.len() && entries[i].0 == key && (forall|j: int|
                i < j < entries.len() ==> entries[j].0 != key) implies spec_lookup(entries, key)
            == Some(entries[i].1) by {
            if i < entries.len() - 1 {
                assert(entries.last() == entries[entries.len() - 1]);
                assert(rest[i] == entries[i]);
                assert forall|j: int| i < j < rest.len() implies rest[j].0 != key by {
                    assert(rest[j] == entries[j]);
                }
            }
        }
        if forall|i: int| 0 <= i < entries.len() ==> entries[i].0 != key {
            assert(entries.last() == entries[entries.len() - 1]);
            assert forall|i: int| 0 <= i < rest.len() implies rest[i].0 != key by {
                assert(rest[i] == entries[i]);
            }
        }
        if spec_lookup(entries, key) is Some {
            let path = spec_lookup(entries, key)->0;
            if entries.last().0 == key {
                assert(entries[entries.len() - 1] == (key, path));
            } else {
                let i = choose|i: int| 0 <= i < rest.len() && rest[i] == (key, path);
                assert(entries[i] == rest[i]);
            }
        }
    }
}

} // verus!
