use vstd::prelude::*;
use crate::text::{begins_with, characters, string_between};

verus! {

/// Where a remote repository lives: the host that serves it, the user or
/// organisation that owns it, and its name.
#[derive(Debug, Clone, PartialEq, Eq)]
pub struct RepositoryLocation {
    pub host: String,
    pub user: String,
    pub repo: String,
}

/// The mathematical value of a [`RepositoryLocation`].
pub struct LocationView {
    pub host: Seq<char>,
    pub user: Seq<char>,
    pub repo: Seq<char>,
}

impl LocationView {
    /// What holds of every location that a URI names: the user holds no `/`,
    /// and the repository name holds neither `/` nor `.`. A host or a user may
    /// be empty, and a host may hold dots.
    pub open spec fn well_formed(self) -> bool {
        !self.user.contains('/') && is_name(self.repo)
    }
}

impl View for RepositoryLocation {
    type V = LocationView;

    open spec fn view(&self) -> LocationView {
        LocationView { host: self.host@, user: self.user@, repo: self.repo@ }
    }
}

/// A remote URI that is in neither of the two accepted forms. It keeps the
/// rejected text for diagnostics.
#[derive(Debug, Clone, PartialEq, Eq)]
pub struct UriParseError {
    pub input: String,
}

/// The prefix of the HTTPS form.
pub open spec fn https_scheme() -> Seq<char> {
    "https://"@
}

/// The prefix of the SSH shorthand form.
pub open spec fn ssh_scheme() -> Seq<char> {
    "git@"@
}

/// The two characters that never occur in a repository name.
pub open spec fn is_separator(c: char) -> bool {
    c == '/' || c == '.'
}

/// `s` holds neither `/` nor `.`.
pub open spec fn is_name(s: Seq<char>) -> bool {
    forall|k: int| 0 <= k < s.len() ==> !is_separator(#[trigger] s[k])
}

/// `i` is the position of the first `c` in `s`.
pub open spec fn is_first_index(s: Seq<char>, c: char, i: int) -> bool {
    &&& 0 <= i < s.len()
    &&& s[i] == c
    &&& forall|k: int| 0 <= k < i ==> s[k] != c
}

/// The position of the first `c` in `s`, meaningful where `s` contains `c`.
pub open spec fn first_index(s: Seq<char>, c: char) -> int {
    choose|i: int| is_first_index(s, c, i)
}

/// `s` cut at its first `c`: what stands before it and what stands after it.
/// `None` where `s` holds no `c`.
pub open spec fn cut(s: Seq<char>, c: char) -> Option<(Seq<char>, Seq<char>)> {
    if s.contains(c) {
        Some((s.take(first_index(s, c)), s.skip(first_index(s, c) + 1)))
    } else {
        None
    }
}

/// `s` with every `/` and `.` removed, wherever it stands.
pub open spec fn without_separators(s: Seq<char>) -> Seq<char> {
    s.filter(|c: char| !is_separator(c))
}

/// `n` is where the leading run of `s` that is free of `/` and `.` ends.
pub open spec fn is_name_end(s: Seq<char>, n: int) -> bool {
    &&& 0 <= n <= s.len()
    &&& forall|k: int| 0 <= k < n ==> !is_separator(#[trigger] s[k])
    &&& n < s.len() ==> is_separator(s[n])
}

/// `s` up to its first `/` or `.`, or all of `s` where it holds neither.
pub open spec fn up_to_separator(s: Seq<char>) -> Seq<char> {
    s.take(choose|n: int| is_name_end(s, n))
}

/// The location that an HTTPS-form URI names, its prefix already removed: host
/// and user are the first two `/`-delimited segments, and the repository name
/// is the remainder without its slashes and dots.
pub open spec fn https_location(rest: Seq<char>) -> Option<LocationView> {
    match cut(rest, '/') {
        Some((host, after_host)) => match cut(after_host, '/') {
            Some((user, tail)) => Some(
                LocationView { host, user, repo: without_separators(tail) },
            ),
            None => None,
        },
        None => None,
    }
}

/// The location that an SSH shorthand URI names, its prefix already removed: the
/// host ends at the first `:`, the user at the first `/` after it, and the
/// repository name is the remainder up to its first `/` or `.`.
pub open spec fn ssh_location(rest: Seq<char>) -> Option<LocationView> {
    match cut(rest, ':') {
        Some((host, after_host)) => match cut(after_host, '/') {
            Some((user, tail)) => Some(
                LocationView { host, user, repo: up_to_separator(tail) },
            ),
            None => None,
        },
        None => None,
    }
}

/// The location that `uri` names, or `None` where `uri` is in neither form.
pub open spec fn location_of(uri: Seq<char>) -> Option<LocationView> {
    if https_scheme().is_prefix_of(uri) {
        https_location(uri.skip(https_scheme().len() as int))
    } else if ssh_scheme().is_prefix_of(uri) {
        ssh_location(uri.skip(ssh_scheme().len() as int))
    } else {
        None
    }
}

/// Two positions that are both the first `c` of `s` are the same position.
pub proof fn lemma_first_index_unique(s: Seq<char>, c: char, i: int)
    requires
        is_first_index(s, c, i),
    ensures
        s.contains(c),
        first_index(s, c) == i,
{
    let j = first_index(s, c);
    assert(is_first_index(s, c, j));
    if j < i {
        assert(s[j] != c);
    }
    if i < j {
        assert(s[i] != c);
    }
}

/// Two positions that both end the leading name of `s` are the same position.
pub proof fn lemma_name_end_unique(s: Seq<char>, n: int)
    requires
        is_name_end(s, n),
    ensures
        up_to_separator(s) == s.take(n),
{
    let m = choose|m: int| is_name_end(s, m);
    assert(is_name_end(s, m));
    if m < n {
        assert(!is_separator(s[m]));
    }
    if n < m {
        assert(!is_separator(s[n]));
    }
}

/// Appending a character to `s` appends it to `s` without its separators,
/// unless the character is itself a separator.
pub proof fn lemma_without_separators_push(s: Seq<char>, c: char)
    ensures
        without_separators(s.push(c)) == if is_separator(c) {
            without_separators(s)
        } else {
            without_separators(s).push(c)
        },
{
    s.lemma_filter_push(c, |c: char| !is_separator(c));
}

/// `rest` holds the host delimiter `first` and, somewhere after it, a `/`.
pub open spec fn has_delimiters(rest: Seq<char>, first: char) -> bool {
    exists|i: int, j: int| 0 <= i < j < rest.len() && rest[i] == first && rest[j] == '/'
}

/// A sequence that holds `c` at `i` has a first position of `c`, at or before `i`.
pub proof fn lemma_first_index_exists(s: Seq<char>, c: char, i: int)
    requires
        0 <= i < s.len(),
        s[i] == c,
    ensures
        is_first_index(s, c, first_index(s, c)),
        first_index(s, c) <= i,
    decreases i,
{
    if forall|k: int| 0 <= k < i ==> s[k] != c {
        assert(is_first_index(s, c, i));
    } else {
        let k = choose|k: int| 0 <= k < i && s[k] == c;
        lemma_first_index_exists(s, c, k);
    }
    let f = first_index(s, c);
    if i < f {
        assert(s[i] != c);
    }
}

/// A sequence without separators is left as it is when its separators are removed.
pub proof fn lemma_without_separators_of_name(s: Seq<char>)
    requires
        is_name(s),
    ensures
        without_separators(s) == s,
    decreases s.len(),
{
    if s.len() == 0 {
        assert(s =~= Seq::<char>::empty());
        assert(Seq::<char>::empty().filter(|c: char| !is_separator(c)) =~= Seq::<char>::empty());
    } else {
        lemma_without_separators_of_name(s.drop_last());
        lemma_without_separators_push(s.drop_last(), s.last());
        assert(s.drop_last().push(s.last()) =~= s);
    }
}

/// What is left when the separators are removed holds no separator.
pub proof fn lemma_without_separators_is_name(s: Seq<char>)
    ensures
        is_name(without_separators(s)),
    decreases s.len(),
{
    if s.len() == 0 {
        assert(s =~= Seq::<char>::empty());
        assert(Seq::<char>::empty().filter(|c: char| !is_separator(c)) =~= Seq::<char>::empty());
    } else {
        lemma_without_separators_is_name(s.drop_last());
        lemma_without_separators_push(s.drop_last(), s.last());
        assert(s.drop_last().push(s.last()) =~= s);
    }
}

/// `before + [c] + after` is cut at that `c` where `before` holds no `c`.
pub proof fn lemma_cut_joined(before: Seq<char>, c: char, after: Seq<char>)
    requires
        !before.contains(c),
    ensures
        cut(before + seq![c] + after, c) == Some((before, after)),
{
    let s = before + seq![c] + after;
    let n = before.len() as int;
    assert(s[n] == c);
    assert forall|k: int| 0 <= k < n implies s[k] != c by {
        assert(s[k] == before[k]);
        assert(before.contains(before[k]));
    }
    lemma_first_index_unique(s, c, n);
    assert(s.take(n) =~= before);
    assert(s.skip(n + 1) =~= after);
}

/// `name + rest` ends its leading name where `rest` begins, if `rest` is empty
/// or begins with a separator.
pub proof fn lemma_up_to_separator_joined(name: Seq<char>, rest: Seq<char>)
    requires
        is_name(name),
        rest.len() == 0 || is_separator(rest[0]),
    ensures
        up_to_separator(name + rest) == name,
{
    let s = name + rest;
    let n = name.len() as int;
    assert forall|k: int| 0 <= k < n implies !is_separator(#[trigger] s[k]) by {
        assert(s[k] == name[k]);
    }
    if n < s.len() {
        assert(s[n] == rest[0]);
    }
    lemma_name_end_unique(s, n);
    assert(s.take(n) =~= name);
}

/// An HTTPS-form URI does not begin as the SSH shorthand does, and the other
/// way round.
pub proof fn lemma_schemes_differ(uri: Seq<char>)
    ensures
        !(https_scheme().is_prefix_of(uri) && ssh_scheme().is_prefix_of(uri)),
{
    reveal_strlit("https://");
    reveal_strlit("git@");
    if https_scheme().is_prefix_of(uri) && ssh_scheme().is_prefix_of(uri) {
        assert(uri.subrange(0, https_scheme().len() as int)[0] == 'h');
        assert(uri.subrange(0, ssh_scheme().len() as int)[0] == 'g');
    }
}

/// A sequence that begins with `scheme` has it as a prefix, and is `rest`
/// once the prefix is dropped.
pub proof fn lemma_scheme_removed(scheme: Seq<char>, rest: Seq<char>)
    ensures
        scheme.is_prefix_of(scheme + rest),
        (scheme + rest).skip(scheme.len() as int) == rest,
{
    assert(scheme =~= (scheme + rest).subrange(0, scheme.len() as int));
    assert((scheme + rest).skip(scheme.len() as int) =~= rest);
}

/// `host/user/tail` is cut into its three parts where neither `host` nor
/// `user` holds the delimiter that ends it.
pub proof fn lemma_cut_segments(
    host: Seq<char>,
    first: char,
    user: Seq<char>,
    tail: Seq<char>,
)
    requires
        !host.contains(first),
        !user.contains('/'),
    ensures
        cut(host + seq![first] + user + seq!['/'] + tail, first) == Some(
            (host, user + seq!['/'] + tail),
        ),
        cut(user + seq!['/'] + tail, '/') == Some((user, tail)),
{
    assert(host + seq![first] + user + seq!['/'] + tail =~= host + seq![first] + (user
        + seq!['/'] + tail));
    lemma_cut_joined(host, first, user + seq!['/'] + tail);
    lemma_cut_joined(user, '/', tail);
}

/// Every URI `https://H/U/T`, in which `H` and `U` hold no `/`, names the
/// location with host `H`, user `U` and, as its repository, `T` without its
/// slashes and dots.
pub proof fn lemma_https_form_with_tail(host: Seq<char>, user: Seq<char>, tail: Seq<char>)
    requires
        !host.contains('/'),
        !user.contains('/'),
    ensures
        location_of(https_scheme() + (host + seq!['/'] + user + seq!['/'] + tail)) == Some(
            LocationView { host, user, repo: without_separators(tail) },
        ),
{
    lemma_scheme_removed(https_scheme(), host + seq!['/'] + user + seq!['/'] + tail);
    lemma_cut_segments(host, '/', user, tail);
}

/// Every URI `https://H/U/R`, and every URI `https://H/U/R/`, in which `H` and
/// `U` hold no `/` and `R` holds neither `/` nor `.`, names the location with
/// host `H`, user `U` and repository `R`.
pub proof fn lemma_https_form(host: Seq<char>, user: Seq<char>, repo: Seq<char>)
    requires
        !host.contains('/'),
        !user.contains('/'),
        is_name(repo),
    ensures
        location_of(https_scheme() + host + seq!['/'] + user + seq!['/'] + repo) == Some(
            LocationView { host, user, repo },
        ),
        location_of(https_scheme() + host + seq!['/'] + user + seq!['/'] + repo + seq!['/'])
            == Some(LocationView { host, user, repo }),
{
    let scheme = https_scheme();
    lemma_without_separators_of_name(repo);
    lemma_without_separators_push(repo, '/');
    lemma_https_form_with_tail(host, user, repo);
    lemma_https_form_with_tail(host, user, repo.push('/'));
    assert(scheme + host + seq!['/'] + user + seq!['/'] + repo =~= scheme + (host + seq!['/']
        + user + seq!['/'] + repo));
    assert(scheme + host + seq!['/'] + user + seq!['/'] + repo + seq!['/'] =~= scheme + (host
        + seq!['/'] + user + seq!['/'] + repo.push('/')));
}

/// Every URI `git@H:U/R` followed by nothing, or by a `/` or a `.` and anything
/// after it, in which `H` holds no `:`, `U` holds no `/` and `R` holds neither
/// `/` nor `.`, names the location with host `H`, user `U` and repository `R`.
pub proof fn lemma_ssh_form_with_suffix(
    host: Seq<char>,
    user: Seq<char>,
    repo: Seq<char>,
    suffix: Seq<char>,
)
    requires
        !host.contains(':'),
        !user.contains('/'),
        is_name(repo),
        suffix.len() == 0 || is_separator(suffix[0]),
    ensures
        location_of(ssh_scheme() + (host + seq![':'] + user + seq!['/'] + (repo + suffix)))
            == Some(LocationView { host, user, repo }),
{
    let rest = host + seq![':'] + user + seq!['/'] + (repo + suffix);
    lemma_scheme_removed(ssh_scheme(), rest);
    lemma_schemes_differ(ssh_scheme() + rest);
    lemma_cut_segments(host, ':', user, repo + suffix);
    lemma_up_to_separator_joined(repo, suffix);
}

/// Every URI `git@H:U/R`, and every URI `git@H:U/R.git`, in which `H` holds no
/// `:`, `U` holds no `/` and `R` holds neither `/` nor `.`, names the location
/// with host `H`, user `U` and repository `R`.
pub proof fn lemma_ssh_form(host: Seq<char>, user: Seq<char>, repo: Seq<char>)
    requires
        !host.contains(':'),
        !user.contains('/'),
        is_name(repo),
    ensures
        location_of(ssh_scheme() + host + seq![':'] + user + seq!['/'] + repo) == Some(
            LocationView { host, user, repo },
        ),
        location_of(ssh_scheme() + host + seq![':'] + user + seq!['/'] + repo + ".git"@) == Some(
            LocationView { host, user, repo },
        ),
{
    let scheme = ssh_scheme();
    reveal_strlit(".git");
    lemma_ssh_form_with_suffix(host, user, repo, Seq::<char>::empty());
    lemma_ssh_form_with_suffix(host, user, repo, ".git"@);
    assert(scheme + host + seq![':'] + user + seq!['/'] + repo =~= scheme + (host + seq![':']
        + user + seq!['/'] + (repo + Seq::<char>::empty())));
    assert(scheme + host + seq![':'] + user + seq!['/'] + repo + ".git"@ =~= scheme + (host
        + seq![':'] + user + seq!['/'] + (repo + ".git"@)));
}

/// `rest` is cut twice, at its first `first` and at the first `/` after it,
/// exactly where it holds both delimiters in that order.
pub proof fn lemma_cut_twice(rest: Seq<char>, first: char)
    ensures
        has_delimiters(rest, first) <==> (cut(rest, first) is Some && cut(
            cut(rest, first).unwrap().1,
            '/',
        ) is Some),
{
    if has_delimiters(rest, first) {
        let (i, j) = choose|i: int, j: int|
            0 <= i < j < rest.len() && rest[i] == first && rest[j] == '/';
        lemma_first_index_exists(rest, first, i);
        let f = first_index(rest, first);
        assert(rest.contains(first));
        let after = rest.skip(f + 1);
        assert(after[j - f - 1] == '/');
        assert(after.contains('/'));
    }
    if cut(rest, first) is Some && cut(cut(rest, first).unwrap().1, '/') is Some {
        let i = choose|i: int| 0 <= i < rest.len() && rest[i] == first;
        lemma_first_index_exists(rest, first, i);
        let f = first_index(rest, first);
        let after = rest.skip(f + 1);
        let k = choose|k: int| 0 <= k < after.len() && after[k] == '/';
        assert(rest[f + 1 + k] == '/');
    }
}

/// A URI names a location exactly where it begins with `https://` and goes on
/// with two `/`, or begins with `git@` and goes on with a `:` and a `/` after
/// it. Every other string is rejected: one with another prefix, and one with
/// an accepted prefix that lacks a delimiter of its form.
pub proof fn lemma_accepted_uris(uri: Seq<char>)
    ensures
        location_of(uri) is Some <==> {
            ||| https_scheme().is_prefix_of(uri) && has_delimiters(
                uri.skip(https_scheme().len() as int),
                '/',
            )
            ||| ssh_scheme().is_prefix_of(uri) && has_delimiters(
                uri.skip(ssh_scheme().len() as int),
                ':',
            )
        },
        !https_scheme().is_prefix_of(uri) && !ssh_scheme().is_prefix_of(uri) ==> location_of(uri)
            is None,
{
    lemma_schemes_differ(uri);
    lemma_cut_twice(uri.skip(https_scheme().len() as int), '/');
    lemma_cut_twice(uri.skip(ssh_scheme().len() as int), ':');
}

/// The location that a URI names is well formed: its user holds no `/` and
/// its repository name holds neither `/` nor `.`. Its host holds no `/` in the
/// HTTPS form and no `:` in the SSH shorthand form.
pub proof fn lemma_location_fields(uri: Seq<char>)
    requires
        location_of(uri) is Some,
    ensures
        location_of(uri).unwrap().well_formed(),
        https_scheme().is_prefix_of(uri) ==> !location_of(uri).unwrap().host.contains('/'),
        !https_scheme().is_prefix_of(uri) ==> !location_of(uri).unwrap().host.contains(':'),
{
    let https = https_scheme().is_prefix_of(uri);
    let first = if https { '/' } else { ':' };
    let rest = if https {
        uri.skip(https_scheme().len() as int)
    } else {
        uri.skip(ssh_scheme().len() as int)
    };
    let i = choose|i: int| 0 <= i < rest.len() && rest[i] == first;
    lemma_first_index_exists(rest, first, i);
    let f = first_index(rest, first);
    let host = rest.take(f);
    let after = rest.skip(f + 1);
    if host.contains(first) {
        let k = choose|k: int| 0 <= k < host.len() && host[k] == first;
        assert(rest[k] == first);
    }
    let j = choose|j: int| 0 <= j < after.len() && after[j] == '/';
    lemma_first_index_exists(after, '/', j);
    let g = first_index(after, '/');
    let user = after.take(g);
    let tail = after.skip(g + 1);
    if user.contains('/') {
        let k = choose|k: int| 0 <= k < user.len() && user[k] == '/';
        assert(after[k] == '/');
    }
    if https {
        lemma_without_separators_is_name(tail);
    } else {
        let n = choose|n: int| is_name_end(tail, n);
        lemma_name_end_exists(tail, 0);
        assert(is_name_end(tail, n));
        assert forall|k: int| 0 <= k < tail.take(n).len() implies !is_separator(
            #[trigger] tail.take(n)[k],
        ) by {
            assert(tail.take(n)[k] == tail[k]);
        }
    }
}

/// The leading name of a sequence ends somewhere: at its first separator, or
/// at its end.
pub proof fn lemma_name_end_exists(s: Seq<char>, n: int)
    requires
        0 <= n <= s.len(),
        forall|k: int| 0 <= k < n ==> !is_separator(#[trigger] s[k]),
    ensures
        exists|m: int| is_name_end(s, m),
    decreases s.len() - n,
{
    if n < s.len() && !is_separator(s[n]) {
        lemma_name_end_exists(s, n + 1);
    } else {
        assert(is_name_end(s, n));
    }
}

/// Finds the first `c` at or after `from`.
fn find_from(cs: &Vec<char>, from: usize, c: char) -> (r: Option<usize>)
    requires
        from <= cs.len(),
    ensures
        match r {
            Some(i) => from <= i < cs.len() && is_first_index(
                cs@.skip(from as int),
                c,
                i - from,
            ),
            None => !cs@.skip(from as int).contains(c),
        },
{
    let ghost s = cs@.skip(from as int);
    let mut i: usize = from;
    while i < cs.len()
        invariant
            from <= i <= cs.len(),
            s == cs@.skip(from as int),
            forall|k: int| 0 <= k < i - from ==> s[k] != c,
        decreases cs.len() - i,
    {
        if cs[i] == c {
            assert(s[i - from] == c);
            return Some(i);
        }
        i += 1;
    }
    None
}

/// Splits `cs[from..]` at its first `c`, returning the position of that `c`.
fn cut_from(cs: &Vec<char>, from: usize, c: char) -> (r: Option<usize>)
    requires
        from <= cs.len(),
    ensures
        match r {
            Some(i) => {
                &&& from <= i < cs.len()
                &&& cut(cs@.skip(from as int), c) == Some(
                    (cs@.subrange(from as int, i as int), cs@.skip(i + 1)),
                )
            },
            None => cut(cs@.skip(from as int), c) is None,
        },
{
    let r = find_from(cs, from, c);
    proof {
        if let Some(i) = r {
            let s = cs@.skip(from as int);
            lemma_first_index_unique(s, c, i - from);
            assert(s.take(i - from) =~= cs@.subrange(from as int, i as int));
            assert(s.skip(i - from + 1) =~= cs@.skip(i + 1));
        }
    }
    r
}

/// The characters of `cs[from..]` that are neither `/` nor `.`.
fn collect_without_separators(cs: &Vec<char>, from: usize) -> (s: String)
    requires
        from <= cs.len(),
    ensures
        s@ == without_separators(cs@.skip(from as int)),
{
    let ghost tail = cs@.skip(from as int);
    let mut s = String::new();
    let mut i: usize = from;
    assert(tail.take(0) =~= Seq::<char>::empty());
    while i < cs.len()
        invariant
            from <= i <= cs.len(),
            tail == cs@.skip(from as int),
            s@ == without_separators(tail.take(i - from)),
        decreases cs.len() - i,
    {
        let c = cs[i];
        proof {
            lemma_without_separators_push(tail.take(i - from), c);
            assert(tail.take(i - from).push(c) =~= tail.take(i - from + 1));
        }
        if c != '/' && c != '.' {
            s.push(c);
        }
        i += 1;
    }
    assert(tail.take(i - from) =~= tail);
    s
}

/// The characters of `cs[from..]` that stand before its first `/` or `.`.
fn collect_up_to_separator(cs: &Vec<char>, from: usize) -> (s: String)
    requires
        from <= cs.len(),
    ensures
        s@ == up_to_separator(cs@.skip(from as int)),
{
    let ghost tail = cs@.skip(from as int);
    let mut i: usize = from;
    while i < cs.len() && cs[i] != '/' && cs[i] != '.'
        invariant
            from <= i <= cs.len(),
            tail == cs@.skip(from as int),
            forall|k: int| 0 <= k < i - from ==> !is_separator(#[trigger] tail[k]),
        decreases cs.len() - i,
    {
        i += 1;
    }
    proof {
        lemma_name_end_unique(tail, i - from);
        assert(tail.take(i - from) =~= cs@.subrange(from as int, i as int));
    }
    string_between(cs, from, i)
}

/// Interprets a remote URI in HTTPS form (`https://host/user/repo`) or in SSH
/// shorthand form (`git@host:user/repo`) and returns the host, the user and
/// the repository name that it names. A URI with another prefix, or without
/// the delimiters of its form, is rejected with an error that holds the URI.
pub fn parse_uri(uri: &str) -> (r: Result<(String, String, String), UriParseError>)
    ensures
        match r {
            Ok(parts) => location_of(uri@) == Some(
                LocationView { host: parts.0@, user: parts.1@, repo: parts.2@ },
            ),
            Err(e) => location_of(uri@) is None && e.input@ == uri@,
        },
{
    let cs = characters(uri);
    let https = characters("https://");
    let ssh = characters("git@");
    let https_form = begins_with(&cs, &https);
    if !https_form && !begins_with(&cs, &ssh) {
        return Err(UriParseError { input: uri.to_owned() });
    }
    let start = if https_form { https.len() } else { ssh.len() };
    let host_delimiter = if https_form { '/' } else { ':' };
    let host_end = match cut_from(&cs, start, host_delimiter) {
        Some(i) => i,
        None => {
            return Err(UriParseError { input: uri.to_owned() });
        },
    };
    let user_end = match cut_from(&cs, host_end + 1, '/') {
        Some(i) => i,
        None => {
            return Err(UriParseError { input: uri.to_owned() });
        },
    };
    let host = string_between(&cs, start, host_end);
    let user = string_between(&cs, host_end + 1, user_end);
    let repo = if https_form {
        collect_without_separators(&cs, user_end + 1)
    } else {
        collect_up_to_separator(&cs, user_end + 1)
    };
    proof {
        assert(cs@.skip(host_end + 1).subrange(0, user_end - host_end - 1) =~= cs@.subrange(
            host_end + 1,
            user_end as int,
        ));
        assert(cs@.skip(host_end + 1).skip(user_end - host_end) =~= cs@.skip(user_end + 1));
    }
    Ok((host, user, repo))
}

impl RepositoryLocation {
    /// The location that `uri` names: see [`parse_uri`].
    pub fn parse(uri: &str) -> (r: Result<RepositoryLocation, UriParseError>)
        ensures
            match r {
                Ok(location) => location_of(uri@) == Some(location@) && location@.well_formed(),
                Err(e) => location_of(uri@) is None && e.input@ == uri@,
            },
    {
        proof {
            if location_of(uri@) is Some {
                lemma_location_fields(uri@);
            }
        }
        match parse_uri(uri) {
            Ok((host, user, repo)) => Ok(RepositoryLocation { host, user, repo }),
            Err(e) => Err(e),
        }
    }
}

} // verus!
