//! The identity record: the local communication account bound to this agent.

use vstd::prelude::*;

verus! {

/// Immutable-after-load description of the local communication identity.
/// `id` is the daemon's opaque handle, `ring_id` the resolvable public
/// network address, and `enabled` the daemon-side activation flag.
pub struct Account {
    pub id: String,
    pub alias: String,
    pub ring_id: String,
    pub enabled: bool,
}

/// The mathematical content of an `Account`.
pub struct AccountView {
    pub id: Seq<char>,
    pub alias: Seq<char>,
    pub ring_id: Seq<char>,
    pub enabled: bool,
}

impl View for Account {
    type V = AccountView;

    open spec fn view(&self) -> AccountView {
        AccountView {
            id: self.id@,
            alias: self.alias@,
            ring_id: self.ring_id@,
            enabled: self.enabled,
        }
    }
}

/// The account with no identity: every field empty and activation off.
pub open spec fn spec_null_account() -> AccountView {
    AccountView {
        id: Seq::<char>::empty(),
        alias: Seq::<char>::empty(),
        ring_id: Seq::<char>::empty(),
        enabled: false,
    }
}

/// `s` with every `ring:` marker removed, scanning left to right — the
/// daemon reports the network address under a `ring:` scheme prefix.
pub open spec fn spec_remove_ring(s: Seq<char>) -> Seq<char>
    decreases s.len(),
{
    if s.len() >= 5 && s.take(5) == "ring:"@ {
        spec_remove_ring(s.skip(5))
    } else if s.len() == 0 {
        Seq::<char>::empty()
    } else {
        seq![s[0]] + spec_remove_ring(s.skip(1))
    }
}

/// The account a daemon detail set decodes to: of the recognized detail keys
/// each occurrence overwrites the field it names, every other key is ignored,
/// and a field no detail names stays empty.
pub open spec fn spec_account_of_details(
    id: Seq<char>,
    details: Seq<(Seq<char>, Seq<char>)>,
) -> AccountView
    decreases details.len(),
{
    if details.len() == 0 {
        AccountView { id: id, ..spec_null_account() }
    } else {
        let prev = spec_account_of_details(id, details.drop_last());
        let kv = details.last();
        if kv.0 == "Account.enable"@ {
            AccountView { enabled: kv.1 == "true"@, ..prev }
        } else if kv.0 == "Account.alias"@ {
            AccountView { alias: kv.1, ..prev }
        } else if kv.0 == "Account.username"@ {
            AccountView { ring_id: spec_remove_ring(kv.1), ..prev }
        } else {
            prev
        }
    }
}

/// Strips every `ring:` marker from `s`, scanning left to right.
fn remove_ring(s: &str) -> (r: String)
    ensures
        r@ == spec_remove_ring(s@),
{
    let n = s.unicode_len();
    let mut out = String::new();
    let mut i: usize = 0;
    proof {
        assert(s@.skip(0) =~= s@);
        assert(Seq::<char>::empty() + spec_remove_ring(s@) =~= spec_remove_ring(s@));
    }
    while i < n
        invariant
            i <= n,
            n == s@.len(),
            spec_remove_ring(s@) == out@ + spec_remove_ring(s@.skip(i as int)),
        decreases n - i,
    {
        let mut matched = false;
        if n - i >= 5 {
            let piece = s.substring_char(i, i + 5);
            if piece.to_owned() == "ring:".to_owned() {
                matched = true;
            }
            proof {
                assert(s@.skip(i as int).take(5) =~= s@.subrange(i as int, i + 5));
            }
        }
        if matched {
            proof {
                assert(s@.skip(i as int).skip(5) =~= s@.skip(i + 5));
            }
            i = i + 5;
        } else {
            let c = s.substring_char(i, i + 1);
            out.append(c);
            proof {
                assert(seq![s@.skip(i as int)[0]] =~= s@.subrange(i as int, i + 1));
                assert(s@.skip(i as int).skip(1) =~= s@.skip(i + 1));
                assert(out@ + spec_remove_ring(s@.skip(i + 1)) =~= spec_remove_ring(s@));
            }
            i = i + 1;
        }
    }
    proof {
        assert(s@.skip(n as int) =~= Seq::<char>::empty());
        assert(out@ + Seq::<char>::empty() =~= out@);
    }
    out
}

impl Account {
    /// The account with no identity.
    pub fn null() -> (r: Account)
        ensures
            r@ == spec_null_account(),
    {
        Account { id: String::new(), alias: String::new(), ring_id: String::new(), enabled: false }
    }

    /// Builds the account a daemon detail set describes: activation comes
    /// from `Account.enable`, the alias from `Account.alias`, and the network
    /// address from `Account.username` with its `ring:` markers stripped.
    /// Unknown keys are metadata and ignored.
    pub fn from_details(id: &str, details: &Vec<(String, String)>) -> (r: Account)
        ensures
            r@ == spec_account_of_details(id@, details.deep_view()),
    {
        let ghost dv = details.deep_view();
        let mut account = Account {
            id: id.to_owned(),
            alias: String::new(),
            ring_id: String::new(),
            enabled: false,
        };
        let mut j: usize = 0;
        while j < details.len()
            invariant
                j <= details.len(),
                dv == details.deep_view(),
                account@ == spec_account_of_details(id@, dv.take(j as int)),
            decreases details.len() - j,
        {
            let kv = &details[j];
            if kv.0 == "Account.enable".to_owned() {
                account.enabled = kv.1 == "true".to_owned();
            } else if kv.0 == "Account.alias".to_owned() {
                account.alias = kv.1.clone();
            } else if kv.0 == "Account.username".to_owned() {
                account.ring_id = remove_ring(kv.1.as_str());
            }
            proof {
                assert(dv.take(j + 1).drop_last() =~= dv.take(j as int));
                assert(dv.take(j + 1).last() == dv[j as int]);
            }
            j = j + 1;
        }
        proof {
            assert(dv.take(details.len() as int) =~= dv);
        }
        account
    }
}

/// The detail set requesting creation of an account: the daemon is handed the
/// main information under the key `from_archive` selects, the fixed account
/// type, and the archive password.
pub open spec fn spec_creation_details(
    main_info: Seq<char>,
    password: Seq<char>,
    from_archive: bool,
) -> Seq<(Seq<char>, Seq<char>)> {
    seq![
        (
            if from_archive {
                "Account.archivePath"@
            } else {
                "Account.alias"@
            },
            main_info,
        ),
        ("Account.type"@, "RING"@),
        ("Account.archivePassword"@, password),
    ]
}

/// Builds the detail set requesting creation of an account, with `main_info`
/// read as an archive path or as an alias according to `from_archive`.
pub fn creation_details(main_info: &String, password: &String, from_archive: bool) -> (r: Vec<
    (String, String),
>)
    ensures
        r.deep_view() == spec_creation_details(main_info@, password@, from_archive),
{
    let mut r: Vec<(String, String)> = Vec::new();
    if from_archive {
        r.push(("Account.archivePath".to_owned(), main_info.clone()));
    } else {
        r.push(("Account.alias".to_owned(), main_info.clone()));
    }
    r.push(("Account.type".to_owned(), "RING".to_owned()));
    r.push(("Account.archivePassword".to_owned(), password.clone()));
    proof {
        assert(r.deep_view() =~= spec_creation_details(main_info@, password@, from_archive));
    }
    r
}

/// The position of the last account whose alias is `alias`, the one a lookup
/// by alias settles on; `None` when no account carries it.
pub fn find_account(accounts: &Vec<Account>, alias: &String) -> (r: Option<usize>)
    ensures
        r matches Some(i) ==> {
            &&& i < accounts@.len()
            &&& accounts@[i as int]@.alias == alias@
            &&& forall|j: int| i < j < accounts@.len() ==> accounts@[j]@.alias != alias@
        },
        r is None ==> forall|j: int| 0 <= j < accounts@.len() ==> accounts@[j]@.alias != alias@,
{
    let mut found: Option<usize> = Option::None;
    let mut i: usize = 0;
    while i < accounts.len()
        invariant
            i <= accounts.len(),
            found matches Some(k) ==> {
                &&& k < i
                &&& accounts@[k as int]@.alias == alias@
                &&& forall|j: int| k < j < i ==> accounts@[j]@.alias != alias@
            },
            found is None ==> forall|j: int| 0 <= j < i ==> accounts@[j]@.alias != alias@,
        decreases accounts.len() - i,
    {
        if accounts[i].alias == *alias {
            found = Option::Some(i);
        }
        i = i + 1;
    }
    found
}

} // verus!
