//! The subject-alternative-name value: every domain tagged `DNS:` and the
//! entries joined with `,`, with no leading or trailing separator.

use vstd::prelude::*;
use vstd::string::StringExecFns;
use vstd::utf8::is_ascii_chars;

verus! {

/// Every domain lies wholly in the ASCII range, as the DNS-name entries of
/// the extension require.
pub open spec fn ascii_domain_list(ds: Seq<Seq<char>>) -> bool {
    forall|i: int| 0 <= i < ds.len() ==> is_ascii_chars(ds[i])
}

/// One subject-alternative-name entry: the `DNS:` tag followed by the domain.
pub open spec fn dns_entry(d: Seq<char>) -> Seq<char> {
    seq!['D', 'N', 'S', ':'] + d
}

/// The joined subject-alternative-name value for a list of domains: the
/// entries in the order given, separated by single commas.
pub open spec fn san_join(ds: Seq<Seq<char>>) -> Seq<char>
    decreases ds.len(),
{
    if ds.len() == 0 {
        Seq::empty()
    } else if ds.len() == 1 {
        dns_entry(ds[0])
    } else {
        dns_entry(ds[0]) + seq![','] + san_join(ds.drop_first())
    }
}

/// The character sequences of a list of domain strings.
pub open spec fn domain_views(ds: Seq<String>) -> Seq<Seq<char>> {
    ds.map_values(|d: String| d@)
}

/// The character sequences of a domain list line up with the strings:
/// same length, and entry for entry the string's characters.
pub proof fn lemma_domain_views_index(ds: Seq<String>)
    ensures
        domain_views(ds).len() == ds.len(),
        forall|i: int| 0 <= i < ds.len() ==> #[trigger] domain_views(ds)[i] == ds[i]@,
{
}

/// Appending one more domain extends the joined value by a comma (when the
/// list was non-empty) and the new entry.
pub proof fn lemma_san_join_push(ds: Seq<Seq<char>>, d: Seq<char>)
    ensures
        ds.len() == 0 ==> san_join(ds.push(d)) == dns_entry(d),
        ds.len() > 0 ==> san_join(ds.push(d)) == san_join(ds) + seq![','] + dns_entry(d),
    decreases ds.len(),
{
    let p = ds.push(d);
    if ds.len() == 0 {
        assert(p.len() == 1);
        assert(p[0] == d);
    } else if ds.len() == 1 {
        assert(p.len() == 2);
        assert(p.drop_first() =~= seq![d]);
        assert(p[0] == ds[0]);
        assert(san_join(seq![d]) == dns_entry(d));
    } else {
        assert(p.drop_first() =~= ds.drop_first().push(d));
        lemma_san_join_push(ds.drop_first(), d);
        assert(p[0] == ds[0]);
        assert(dns_entry(ds[0]) + seq![','] + (san_join(ds.drop_first()) + seq![','] + dns_entry(d))
            =~= (dns_entry(ds[0]) + seq![','] + san_join(ds.drop_first())) + seq![','] + dns_entry(d));
    }
}

/// Builds the joined subject-alternative-name value for `domains`:
/// `DNS:` before each domain, a single comma between entries.
pub fn san_value(domains: &Vec<String>) -> (r: String)
    ensures
        r@ == san_join(domain_views(domains@)),
{
    let mut r = String::new();
    let mut i: usize = 0;
    proof {
        assert(domain_views(domains@).take(0) =~= Seq::<Seq<char>>::empty());
    }
    while i < domains.len()
        invariant
            i <= domains@.len(),
            r@ == san_join(domain_views(domains@).take(i as int)),
        decreases domains@.len() - i,
    {
        if i > 0 {
            r.append(",");
        }
        r.append("DNS:");
        r.append(domains[i].as_str());
        proof {
            reveal_strlit("DNS:");
            reveal_strlit(",");
            let dv = domain_views(domains@);
            let di = domains@[i as int]@;
            lemma_san_join_push(dv.take(i as int), di);
            assert(dv.take(i as int).push(di) =~= dv.take(i as int + 1));
            assert("DNS:"@ =~= seq!['D', 'N', 'S', ':']);
            assert(","@ =~= seq![',']);
            if i == 0 {
                assert(r@ =~= dns_entry(di));
            } else {
                assert(r@ =~= san_join(dv.take(i as int)) + seq![','] + dns_entry(di));
            }
        }
        i = i + 1;
    }
    proof {
        assert(domain_views(domains@).take(domains@.len() as int) =~= domain_views(domains@));
    }
    r
}

/// A single-domain list yields a value with no comma: the joined value is the
/// lone entry itself, and it holds a comma only where the domain does.
pub proof fn lemma_single_domain_no_comma(ds: Seq<Seq<char>>)
    requires
        ds.len() == 1,
        forall|i: int| 0 <= i < ds[0].len() ==> ds[0][i] != ',',
    ensures
        san_join(ds) == dns_entry(ds[0]),
        forall|i: int| 0 <= i < san_join(ds).len() ==> san_join(ds)[i] != ',',
{
    let j = san_join(ds);
    assert(j == dns_entry(ds[0]));
    assert forall|i: int| 0 <= i < j.len() implies j[i] != ',' by {
        if i < 4 {
            assert(j[i] == seq!['D', 'N', 'S', ':'][i]);
        } else {
            assert(j[i] == ds[0][i - 4]);
        }
    }
}

} // verus!
