//! The account record: the service a user is signed in to, and the session.
use vstd::prelude::*;
use vstd::string::StringExecFns;

use crate::args::{given, ArgMap};
use crate::config::{flat_of, scalar_text, ConfigTriat, Scalar};
use crate::storage::logged_in;

verus! {

/// The account settings kept between runs.
#[derive(Debug, Clone, PartialEq, Eq)]
pub struct AccountConfig {
    /// The service's base URL.
    pub instance: Option<String>,
    /// The signed-in user's id.
    pub id: Option<String>,
    /// The session token.
    pub token: Option<String>,
}

/// The view of an optional text field.
pub open spec fn opt_text(o: Option<String>) -> Option<Seq<char>> {
    match o {
        Some(s) => Some(s@),
        None => None,
    }
}

/// The text an optional field flattens to: absent becomes empty.
pub open spec fn flat_text(o: Option<Seq<char>>) -> Seq<char> {
    match o {
        Some(s) => s,
        None => Seq::empty(),
    }
}

/// The field read back from a flattened map: an empty or absent value is
/// absent.
pub open spec fn field_of(m: Map<Seq<char>, Seq<char>>, k: Seq<char>) -> Option<Seq<char>> {
    if given(m, k) {
        Some(m[k])
    } else {
        None
    }
}

/// The account that a flattened map describes.
pub open spec fn account_of(m: Map<Seq<char>, Seq<char>>) -> (Option<Seq<char>>, Option<Seq<char>>, Option<Seq<char>>) {
    (field_of(m, "instance"@), field_of(m, "id"@), field_of(m, "token"@))
}

/// No field holds an empty text: the flattened form tells empty from absent
/// only then.
pub open spec fn no_empty_field(v: (Option<Seq<char>>, Option<Seq<char>>, Option<Seq<char>>)) -> bool {
    &&& v.0 != Some(Seq::<char>::empty())
    &&& v.1 != Some(Seq::<char>::empty())
    &&& v.2 != Some(Seq::<char>::empty())
}

impl View for AccountConfig {
    type V = (Option<Seq<char>>, Option<Seq<char>>, Option<Seq<char>>);

    open spec fn view(&self) -> Self::V {
        (opt_text(self.instance), opt_text(self.id), opt_text(self.token))
    }
}

fn field_scalar(o: &Option<String>) -> (r: Scalar)
    ensures
        scalar_text(r) == flat_text(opt_text(*o)),
{
    match o {
        Some(s) => Scalar::Text(s.clone()),
        None => Scalar::Null,
    }
}

fn read_field(map: &ArgMap, k: &str) -> (r: Option<String>)
    requires
        map.wf(),
    ensures
        opt_text(r) == field_of(map@, k@),
{
    match map.get(k) {
        Some(v) => if map.is_given(k) {
            Some(v.clone())
        } else {
            None
        },
        None => None,
    }
}

impl AccountConfig {
    /// The account with no field set.
    pub fn new() -> (r: AccountConfig)
        ensures
            r@ == (None::<Seq<char>>, None::<Seq<char>>, None::<Seq<char>>),
    {
        AccountConfig { instance: None, id: None, token: None }
    }

    /// Reads an account back from a flattened map.
    pub fn from_map(map: &ArgMap) -> (r: AccountConfig)
        requires
            map.wf(),
        ensures
            r@ == account_of(map@),
    {
        AccountConfig {
            instance: read_field(map, "instance"),
            id: read_field(map, "id"),
            token: read_field(map, "token"),
        }
    }

    /// Whether a map holds session credentials.
    pub fn is_loggedin_map(map: &ArgMap) -> (r: bool)
        requires
            map.wf(),
        ensures
            r == logged_in(map@),
    {
        map.is_given("instance") && map.is_given("token")
    }
}

impl ConfigTriat for AccountConfig {
    open spec fn record_name() -> Seq<char> {
        "account"@
    }

    open spec fn flat(&self) -> Map<Seq<char>, Seq<char>> {
        map![
            "instance"@ => flat_text(self@.0),
            "id"@ => flat_text(self@.1),
            "token"@ => flat_text(self@.2),
        ]
    }

    open spec fn is_default(&self) -> bool {
        self@ == (None::<Seq<char>>, None::<Seq<char>>, None::<Seq<char>>)
    }

    fn name() -> (r: String) {
        String::from_str("account")
    }

    fn fields(&self) -> (r: Vec<(String, Scalar)>) {
        let r = vec![
            (String::from_str("instance"), field_scalar(&self.instance)),
            (String::from_str("id"), field_scalar(&self.id)),
            (String::from_str("token"), field_scalar(&self.token)),
        ];
        proof {
            reveal_with_fuel(flat_of, 4);
            assert(r@.drop_last().drop_last().drop_last() =~= Seq::<(String, Scalar)>::empty());
            assert(r@.drop_last().drop_last() =~= seq![r@[0]]);
            assert(r@.drop_last() =~= seq![r@[0], r@[1]]);
            assert(flat_of(r@) =~= self.flat());
        }
        r
    }

    fn default_config() -> (r: AccountConfig) {
        AccountConfig::new()
    }
}

proof fn lemma_flat_fields(c: AccountConfig)
    requires
        no_empty_field(c@),
    ensures
        c.flat().contains_key("instance"@),
        c.flat().contains_key("id"@),
        c.flat().contains_key("token"@),
        c.flat()["instance"@] == flat_text(c@.0),
        c.flat()["id"@] == flat_text(c@.1),
        c.flat()["token"@] == flat_text(c@.2),
        field_of(c.flat(), "instance"@) == c@.0,
        field_of(c.flat(), "id"@) == c@.1,
        field_of(c.flat(), "token"@) == c@.2,
{
    reveal_strlit("instance");
    reveal_strlit("id");
    reveal_strlit("token");
    assert("instance"@ != "id"@) by {
        assert("instance"@.len() != "id"@.len());
    }
    assert("instance"@ != "token"@) by {
        assert("instance"@.len() != "token"@.len());
    }
    assert("id"@ != "token"@) by {
        assert("id"@.len() != "token"@.len());
    }
    lemma_present_not_empty(c@.0);
    lemma_present_not_empty(c@.1);
    lemma_present_not_empty(c@.2);
}

proof fn lemma_present_not_empty(o: Option<Seq<char>>)
    requires
        o != Some(Seq::<char>::empty()),
    ensures
        (o is Some) <==> flat_text(o).len() > 0,
{
    if let Some(s) = o {
        if s.len() == 0 {
            assert(s =~= Seq::<char>::empty());
        }
    }
}

/// Flattening an account and reading it back gives the same account, for
/// every account whose fields are absent or non-empty: an absent field
/// flattens to the empty string and reads back as absent.
pub proof fn lemma_account_round_trip(c: AccountConfig)
    requires
        no_empty_field(c@),
    ensures
        c.flat().contains_key("instance"@),
        c.flat().contains_key("id"@),
        c.flat().contains_key("token"@),
        account_of(c.flat()) == c@,
{
    lemma_flat_fields(c);
}

/// An account's flattened map holds session credentials exactly when its
/// service and its token are set.
pub proof fn lemma_account_logged_in(c: AccountConfig)
    requires
        no_empty_field(c@),
    ensures
        logged_in(c.flat()) <==> (c@.0 is Some && c@.2 is Some),
{
    lemma_flat_fields(c);
}

} // verus!
