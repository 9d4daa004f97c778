//! Listing payments: filtering, ordering by creation time descending, and
//! cursor pagination.
//!
//! The order is pinned by `sort_desc`, a stable insertion sort at the
//! specification level; the executable sort is proved equal to it, and
//! `lemma_sort_desc_ensures` shows it yields a descending permutation of
//! its input.

use vstd::prelude::*;
use vstd::seq_lib::lemma_multiset_commutative;

use crate::errors::DefiantError;
use crate::lifecycle::{lemma_status_str_injective, spec_status_str, status_from_str, PaymentStatus};
use crate::payment::{
    payment_to_response, response_model_of, Payment, PaymentModel, PaymentResponse, ResponseModel,
};
use crate::service::{inv, lemma_merchant_for_unique, merchant_for, PaymentService};
use crate::merchant::resolves;

verus! {

/// Descending order by creation time.
pub open spec fn sorted_desc(s: Seq<PaymentModel>) -> bool {
    forall|i: int, j: int|
        0 <= i <= j < s.len() ==> (#[trigger] s[i]).created_at >= (#[trigger] s[j]).created_at
}

/// Inserts `p` into `s` behind every element created no earlier: on a
/// sequence sorted descending this keeps the order and is stable.
pub open spec fn insert_desc(s: Seq<PaymentModel>, p: PaymentModel) -> Seq<PaymentModel>
    decreases s.len(),
{
    if s.len() == 0 {
        seq![p]
    } else if s[0].created_at >= p.created_at {
        seq![s[0]] + insert_desc(s.drop_first(), p)
    } else {
        seq![p] + s
    }
}

/// Sorts by creation time descending, stably: elements are inserted in
/// order of appearance, each behind its equals.
pub open spec fn sort_desc(s: Seq<PaymentModel>) -> Seq<PaymentModel>
    decreases s.len(),
{
    if s.len() == 0 {
        Seq::empty()
    } else {
        insert_desc(sort_desc(s.drop_last()), s.last())
    }
}

/// `insert_desc` keeps a descending sequence descending, adds exactly the
/// inserted element, and invents no others.
pub proof fn lemma_insert_desc_ensures(s: Seq<PaymentModel>, p: PaymentModel)
    requires
        sorted_desc(s),
    ensures
        insert_desc(s, p).len() == s.len() + 1,
        sorted_desc(insert_desc(s, p)),
        insert_desc(s, p).to_multiset() == s.to_multiset().insert(p),
        forall|j: int|
            0 <= j < insert_desc(s, p).len() ==> (#[trigger] insert_desc(s, p)[j] == p
                || s.contains(insert_desc(s, p)[j])),
    decreases s.len(),
{
    broadcast use vstd::seq_lib::group_to_multiset_ensures;

    let t = insert_desc(s, p);
    if s.len() == 0 {
        assert(t =~= Seq::empty().push(p));
        assert(t.to_multiset() =~= s.to_multiset().insert(p));
    } else if s[0].created_at >= p.created_at {
        let rest = s.drop_first();
        assert forall|i: int, j: int|
            0 <= i <= j < rest.len() implies (#[trigger] rest[i]).created_at >= (
        #[trigger] rest[j]).created_at by {
            assert(rest[i] == s[i + 1]);
            assert(rest[j] == s[j + 1]);
        }
        lemma_insert_desc_ensures(rest, p);
        let y = insert_desc(rest, p);
        assert(t == seq![s[0]] + y);
        assert forall|i: int, j: int|
            0 <= i <= j < t.len() implies (#[trigger] t[i]).created_at >= (
        #[trigger] t[j]).created_at by {
            if i == 0 && j > 0 {
                assert(t[j] == y[j - 1]);
                if y[j - 1] == p {
                } else {
                    assert(rest.contains(y[j - 1]));
                    let k = choose|k: int| 0 <= k < rest.len() && rest[k] == y[j - 1];
                    assert(s[k + 1] == rest[k]);
                    assert(s[0].created_at >= s[k + 1].created_at);
                }
            } else if i > 0 {
                assert(t[i] == y[i - 1]);
                assert(t[j] == y[j - 1]);
            }
        }
        assert(seq![s[0]] =~= Seq::<PaymentModel>::empty().push(s[0]));
        lemma_multiset_commutative(seq![s[0]], y);
        assert(s =~= seq![s[0]] + rest);
        lemma_multiset_commutative(seq![s[0]], rest);
        assert(t.to_multiset() =~= s.to_multiset().insert(p));
        assert forall|j: int| 0 <= j < t.len() implies (#[trigger] t[j] == p || s.contains(
            t[j],
        )) by {
            if j == 0 {
                assert(t[0] == s[0]);
                assert(s.contains(s[0]));
            } else {
                assert(t[j] == y[j - 1]);
                if y[j - 1] == p {
                } else {
                    assert(rest.contains(y[j - 1]));
                    let k = choose|k: int| 0 <= k < rest.len() && rest[k] == y[j - 1];
                    assert(s[k + 1] == rest[k]);
                    assert(s.contains(s[k + 1]));
                }
            }
        }
    } else {
        assert(t == seq![p] + s);
        assert forall|i: int, j: int|
            0 <= i <= j < t.len() implies (#[trigger] t[i]).created_at >= (
        #[trigger] t[j]).created_at by {
            if i == 0 && j > 0 {
                assert(t[j] == s[j - 1]);
                assert(s[0].created_at >= s[j - 1].created_at);
            } else if i > 0 {
                assert(t[i] == s[i - 1]);
                assert(t[j] == s[j - 1]);
            }
        }
        assert(seq![p] =~= Seq::<PaymentModel>::empty().push(p));
        lemma_multiset_commutative(seq![p], s);
        assert(t.to_multiset() =~= s.to_multiset().insert(p));
        assert forall|j: int| 0 <= j < t.len() implies (#[trigger] t[j] == p || s.contains(
            t[j],
        )) by {
            if j > 0 {
                assert(t[j] == s[j - 1]);
                assert(s.contains(s[j - 1]));
            }
        }
    }
}

/// `sort_desc` yields a descending permutation of its input.
pub proof fn lemma_sort_desc_ensures(s: Seq<PaymentModel>)
    ensures
        sort_desc(s).len() == s.len(),
        sorted_desc(sort_desc(s)),
        sort_desc(s).to_multiset() == s.to_multiset(),
    decreases s.len(),
{
    broadcast use vstd::seq_lib::group_to_multiset_ensures;

    if s.len() == 0 {
    } else {
        let head = sort_desc(s.drop_last());
        lemma_sort_desc_ensures(s.drop_last());
        lemma_insert_desc_ensures(head, s.last());
        assert(s =~= s.drop_last().push(s.last()));
        assert(sort_desc(s).to_multiset() =~= s.to_multiset());
    }
}

/// Inserts a payment behind every row created no earlier.
fn insert_sorted(v: Vec<Payment>, p: Payment) -> (r: Vec<Payment>)
    ensures
        r.deep_view() == insert_desc(v.deep_view(), p@),
    decreases v@.len(),
{
    let ghost vd = v.deep_view();
    if v.len() == 0 {
        let mut r: Vec<Payment> = Vec::new();
        r.push(p);
        proof {
            assert(r.deep_view() =~= insert_desc(vd, p@));
        }
        r
    } else if v[0].created_at >= p.created_at {
        let mut w = v;
        let head = w.remove(0);
        proof {
            assert(w.deep_view() =~= vd.drop_first());
            assert(head@ == vd[0]);
        }
        let mut r = insert_sorted(w, p);
        let ghost rd = r.deep_view();
        r.insert(0, head);
        proof {
            assert(r.deep_view() =~= seq![head@] + rd);
            assert(r.deep_view() =~= insert_desc(vd, p@));
        }
        r
    } else {
        let mut r = v;
        r.insert(0, p);
        proof {
            assert(r.deep_view() =~= seq![p@] + vd);
            assert(r.deep_view() =~= insert_desc(vd, p@));
        }
        r
    }
}

/// Sorts payments by creation time descending, stably.
pub fn sort_payments(v: Vec<Payment>) -> (r: Vec<Payment>)
    ensures
        r.deep_view() == sort_desc(v.deep_view()),
{
    let ghost vd = v.deep_view();
    let mut out: Vec<Payment> = Vec::new();
    let mut i: usize = 0;
    proof {
        assert(out.deep_view() =~= sort_desc(vd.take(0)));
    }
    while i < v.len()
        invariant
            i <= v.len(),
            vd == v.deep_view(),
            out.deep_view() == sort_desc(vd.take(i as int)),
        decreases v.len() - i,
    {
        proof {
            assert(v[i as int]@ == vd[i as int]);
        }
        let item = v[i].clone();
        out = insert_sorted(out, item);
        proof {
            assert(vd.take(i as int + 1).drop_last() =~= vd.take(i as int));
            assert(vd.take(i as int + 1).last() == vd[i as int]);
            assert(out.deep_view() == insert_desc(sort_desc(vd.take(i as int)), vd[i as int]));
            assert(out.deep_view() == sort_desc(vd.take(i as int + 1)));
        }
        i += 1;
    }
    proof {
        assert(vd.take(v.len() as int) =~= vd);
    }
    out
}

/// The list filter: the merchant's own rows, optionally narrowed to one
/// customer and one status.
pub open spec fn spec_matches(
    p: PaymentModel,
    merchant_id: u128,
    customer: Option<u128>,
    status: Option<PaymentStatus>,
) -> bool {
    &&& p.merchant_id == merchant_id
    &&& (customer matches Some(c) ==> p.customer_id == Some(c))
    &&& (status matches Some(st) ==> p.status == st)
}

/// The filter as a predicate value.
pub open spec fn match_pred(
    merchant_id: u128,
    customer: Option<u128>,
    status: Option<PaymentStatus>,
) -> spec_fn(PaymentModel) -> bool {
    |p: PaymentModel| spec_matches(p, merchant_id, customer, status)
}

/// The rows a listing draws from: the matching rows, ordered by creation
/// time descending.
pub open spec fn listed(
    payments: Seq<PaymentModel>,
    merchant_id: u128,
    customer: Option<u128>,
    status: Option<PaymentStatus>,
) -> Seq<PaymentModel> {
    sort_desc(payments.filter(match_pred(merchant_id, customer, status)))
}

/// Whether some row carries the id.
pub open spec fn has_id(s: Seq<PaymentModel>, id: u128) -> bool {
    exists|i: int| 0 <= i < s.len() && (#[trigger] s[i]).id == id
}

/// `k` is the first position carrying the id.
pub open spec fn is_first_id(s: Seq<PaymentModel>, id: u128, k: int) -> bool {
    &&& 0 <= k < s.len()
    &&& s[k].id == id
    &&& forall|j: int| 0 <= j < k ==> (#[trigger] s[j]).id != id
}

/// The first position carrying the id (meaningful only when `has_id`
/// holds; always unique).
pub open spec fn id_pos(s: Seq<PaymentModel>, id: u128) -> int {
    choose|k: int| is_first_id(s, id, k)
}

/// First positions are unique.
pub proof fn lemma_first_id_unique(s: Seq<PaymentModel>, id: u128, k: int)
    requires
        is_first_id(s, id, k),
    ensures
        has_id(s, id),
        id_pos(s, id) == k,
{
    assert(has_id(s, id));
    let k2 = choose|k2: int| is_first_id(s, id, k2);
    if k < k2 {
        assert(s[k].id != id);
    } else if k2 < k {
        assert(s[k2].id != id);
    }
}

/// The slice of rows the cursors select: strictly after `starting_after`
/// and strictly before `ending_before` in the listing order.
pub open spec fn spec_window(
    s: Seq<PaymentModel>,
    starting_after: Option<u128>,
    ending_before: Option<u128>,
) -> Seq<PaymentModel> {
    let lo = match starting_after {
        Some(id) => id_pos(s, id) + 1,
        None => 0,
    };
    let hi = match ending_before {
        Some(id) => id_pos(s, id),
        None => s.len() as int,
    };
    if 0 <= lo <= hi <= s.len() {
        s.subrange(lo, hi)
    } else {
        Seq::empty()
    }
}

/// The page: the first `limit` rows of the window.
pub open spec fn spec_page(
    s: Seq<PaymentModel>,
    starting_after: Option<u128>,
    ending_before: Option<u128>,
    limit: int,
) -> Seq<PaymentModel> {
    let w = spec_window(s, starting_after, ending_before);
    if w.len() <= limit {
        w
    } else {
        w.take(limit)
    }
}

/// A page holds at most `limit` rows, keeps the descending order, and the
/// window outgrows the page exactly when it outgrows the limit — the
/// `has_more` flag.
pub proof fn lemma_page_bounds(
    s: Seq<PaymentModel>,
    starting_after: Option<u128>,
    ending_before: Option<u128>,
    limit: int,
)
    requires
        limit >= 0,
        sorted_desc(s),
    ensures
        spec_page(s, starting_after, ending_before, limit).len() <= limit,
        sorted_desc(spec_page(s, starting_after, ending_before, limit)),
        (spec_window(s, starting_after, ending_before).len() > limit) <==> (spec_window(
            s,
            starting_after,
            ending_before,
        ).len() > spec_page(s, starting_after, ending_before, limit).len()),
{
    let w = spec_window(s, starting_after, ending_before);
    let p = spec_page(s, starting_after, ending_before, limit);
    assert forall|i: int, j: int|
        0 <= i <= j < w.len() implies (#[trigger] w[i]).created_at >= (
    #[trigger] w[j]).created_at by {
    }
    assert forall|i: int, j: int|
        0 <= i <= j < p.len() implies (#[trigger] p[i]).created_at >= (
    #[trigger] p[j]).created_at by {
        assert(p[i] == w[i]);
        assert(p[j] == w[j]);
    }
}

/// What a caller sees of a listing.
#[derive(Debug)]
pub struct PaymentsListResponse {
    pub data: Vec<PaymentResponse>,
    pub has_more: bool,
    pub total: i64,
    pub url: String,
}

/// The mathematical model of a listing response.
#[verifier::ext_equal]
pub ghost struct ListModel {
    pub data: Seq<ResponseModel>,
    pub has_more: bool,
    pub total: int,
    pub url: Seq<char>,
}

impl DeepView for PaymentResponse {
    type V = ResponseModel;

    open spec fn deep_view(&self) -> ResponseModel {
        self.view()
    }
}

impl View for PaymentsListResponse {
    type V = ListModel;

    open spec fn view(&self) -> ListModel {
        ListModel {
            data: self.data.deep_view(),
            has_more: self.has_more,
            total: self.total as int,
            url: self.url@,
        }
    }
}

/// The query shape of a listing call.
#[derive(Debug)]
pub struct PaymentListQuery {
    pub limit: Option<i64>,
    pub starting_after: Option<u128>,
    pub ending_before: Option<u128>,
    pub customer: Option<u128>,
    pub status: Option<String>,
}

/// An acceptable page size: absent, or between 1 and 100.
pub open spec fn limit_ok(limit: Option<i64>) -> bool {
    limit matches Some(l) ==> 1 <= l <= 100
}

/// The page size in effect: 10 when absent.
pub open spec fn eff_limit(limit: Option<i64>) -> int {
    match limit {
        Some(l) => l as int,
        None => 10,
    }
}

/// Whether the text is the encoding of some status.
pub open spec fn valid_status_text(t: Seq<char>) -> bool {
    exists|st: PaymentStatus| spec_status_str(st) == t
}

/// The status a text decodes to (meaningful only when `valid_status_text`
/// holds; unique since the encoding is injective).
pub open spec fn decoded_status(t: Seq<char>) -> PaymentStatus {
    choose|st: PaymentStatus| spec_status_str(st) == t
}

/// The status filter a query asks for.
pub open spec fn eff_status(status: Option<Seq<char>>) -> Option<PaymentStatus> {
    match status {
        Some(t) => Some(decoded_status(t)),
        None => None,
    }
}

/// All of a query's inputs are acceptable against the given rows: the
/// page size is in range, the status text decodes, and each cursor names
/// a listed row.
pub open spec fn query_ok(payments: Seq<PaymentModel>, merchant_id: u128, q: &PaymentListQuery)
    -> bool {
    &&& limit_ok(q.limit)
    &&& (q.status matches Some(t) ==> valid_status_text(t@))
    &&& (q.starting_after matches Some(id) ==> has_id(
        listed(payments, merchant_id, q.customer, eff_status(q.status.deep_view())),
        id,
    ))
    &&& (q.ending_before matches Some(id) ==> has_id(
        listed(payments, merchant_id, q.customer, eff_status(q.status.deep_view())),
        id,
    ))
}

/// The first position carrying `id`, if any.
fn find_first_id(v: &Vec<Payment>, id: u128) -> (r: Option<usize>)
    ensures
        r matches Some(k) ==> is_first_id(v.deep_view(), id, k as int),
        r is None <==> !has_id(v.deep_view(), id),
{
    let n = v.len();
    let mut i: usize = 0;
    while i < n
        invariant
            n == v.len(),
            i <= n,
            forall|j: int| 0 <= j < i ==> (#[trigger] v.deep_view()[j]).id != id,
        decreases n - i,
    {
        proof {
            assert(v[i as int]@ == v.deep_view()[i as int]);
        }
        if v[i].id == id {
            return Some(i);
        }
        i += 1;
    }
    None
}

impl PaymentService {
    /// Lists the merchant's payments: newest first, optionally filtered by
    /// customer and status, paginated by an id cursor. The page holds at
    /// most the requested number of rows; `has_more` says whether matching
    /// rows remain beyond it, and `total` counts every matching row
    /// regardless of pagination.
    pub fn list_payments(&self, query: &PaymentListQuery, credential: &str) -> (r: Result<
        PaymentsListResponse,
        DefiantError,
    >)
        requires
            inv(self@),
        ensures
            (r matches Err(e) && e is AuthenticationError) <==> !resolves(
                self@.merchants,
                credential@,
            ),
            (r matches Err(e) && e is ValidationError) <==> resolves(self@.merchants, credential@)
                && !query_ok(
                self@.payments,
                merchant_for(self@.merchants, credential@).id,
                query,
            ),
            (r matches Err(e) && e is InternalError) <==> resolves(self@.merchants, credential@)
                && query_ok(self@.payments, merchant_for(self@.merchants, credential@).id, query)
                && listed(
                self@.payments,
                merchant_for(self@.merchants, credential@).id,
                query.customer,
                eff_status(query.status.deep_view()),
            ).len() > i64::MAX,
            r is Ok <==> resolves(self@.merchants, credential@) && query_ok(
                self@.payments,
                merchant_for(self@.merchants, credential@).id,
                query,
            ) && listed(
                self@.payments,
                merchant_for(self@.merchants, credential@).id,
                query.customer,
                eff_status(query.status.deep_view()),
            ).len() <= i64::MAX,
            r matches Ok(resp) ==> ({
                let all = listed(
                    self@.payments,
                    merchant_for(self@.merchants, credential@).id,
                    query.customer,
                    eff_status(query.status.deep_view()),
                );
                let w = spec_window(all, query.starting_after, query.ending_before);
                let page = spec_page(
                    all,
                    query.starting_after,
                    query.ending_before,
                    eff_limit(query.limit),
                );
                &&& resp@.data == page.map_values(
                    (|m: PaymentModel| response_model_of(m, None)),
                )
                &&& resp@.has_more == (w.len() > eff_limit(query.limit))
                &&& resp@.total == all.len()
                &&& resp@.url == "/v1/payments"@
            }),
    {
        let merchant_id = match self.directory.resolve(credential) {
            Ok(m) => {
                proof {
                    lemma_merchant_for_unique(
                        self@.merchants,
                        credential@,
                        m.id,
                        m.allow_large_payments,
                    );
                }
                m.id
            },
            Err(e) => {
                return Err(e);
            },
        };
        let limit: usize = match query.limit {
            Some(l) => {
                if l < 1 || l > 100 {
                    return Err(DefiantError::ValidationError(String::from_str(
                        "limit must be between 1 and 100",
                    )));
                }
                l as usize
            },
            None => 10,
        };
        let status_filter: Option<PaymentStatus> = match &query.status {
            None => None,
            Some(t) => match status_from_str(t.as_str()) {
                Some(st) => {
                    proof {
                        assert(valid_status_text(t@));
                        lemma_status_str_injective(st, decoded_status(t@));
                    }
                    Some(st)
                },
                None => {
                    return Err(DefiantError::ValidationError(String::from_str(
                        "unknown status filter",
                    )));
                },
            },
        };
        proof {
            assert(eff_status(query.status.deep_view()) == status_filter);
        }
        let customer = query.customer;
        let ghost pred = match_pred(merchant_id, customer, status_filter);
        let n = self.store.len();
        let mut matching: Vec<Payment> = Vec::new();
        let mut i: usize = 0;
        proof {
            assert(matching.deep_view() =~= self@.payments.take(0).filter(pred));
        }
        while i < n
            invariant
                n == self@.payments.len(),
                i <= n,
                pred == match_pred(merchant_id, customer, status_filter),
                matching.deep_view() == self@.payments.take(i as int).filter(pred),
            decreases n - i,
        {
            let p = self.store.get(i);
            let hit = p.merchant_id == merchant_id && (match customer {
                Some(c) => match p.customer_id {
                    Some(x) => x == c,
                    None => false,
                },
                None => true,
            }) && (match status_filter {
                Some(st) => p.status == st,
                None => true,
            });
            let ghost premat = matching.deep_view();
            if hit {
                matching.push(p.clone());
            }
            proof {
                reveal(Seq::filter);
                let s = self@.payments;
                assert(s.take(i as int + 1).drop_last() =~= s.take(i as int));
                assert(s.take(i as int + 1).last() == s[i as int]);
                assert(hit == pred(s[i as int]));
                if hit {
                    assert(matching.deep_view() =~= premat.push(s[i as int]));
                }
                assert(matching.deep_view() == s.take(i as int + 1).filter(pred));
            }
            i += 1;
        }
        proof {
            assert(self@.payments.take(n as int) =~= self@.payments);
        }
        let sorted = sort_payments(matching);
        let ghost all = listed(
            self@.payments,
            merchant_id,
            customer,
            eff_status(query.status.deep_view()),
        );
        proof {
            assert(sorted.deep_view() == all);
        }
        let lo: usize = match query.starting_after {
            Some(said) => match find_first_id(&sorted, said) {
                Some(k) => {
                    proof {
                        lemma_first_id_unique(all, said, k as int);
                    }
                    k + 1
                },
                None => {
                    return Err(DefiantError::ValidationError(String::from_str(
                        "no such payment for starting_after",
                    )));
                },
            },
            None => 0,
        };
        let hi: usize = match query.ending_before {
            Some(ebid) => match find_first_id(&sorted, ebid) {
                Some(k) => {
                    proof {
                        lemma_first_id_unique(all, ebid, k as int);
                    }
                    k
                },
                None => {
                    return Err(DefiantError::ValidationError(String::from_str(
                        "no such payment for ending_before",
                    )));
                },
            },
            None => sorted.len(),
        };
        if sorted.len() as u64 > (i64::MAX as u64) {
            return Err(DefiantError::InternalError);
        }
        let total: i64 = sorted.len() as i64;
        let ghost w = spec_window(all, query.starting_after, query.ending_before);
        let window_len: usize = if lo <= hi {
            hi - lo
        } else {
            0
        };
        proof {
            if lo <= hi {
                assert(w =~= all.subrange(lo as int, hi as int));
            } else {
                assert(w =~= Seq::<PaymentModel>::empty());
            }
        }
        proof {
            assert(w =~= all.subrange(lo as int, lo as int + window_len as int));
        }
        let count: usize = if window_len <= limit {
            window_len
        } else {
            limit
        };
        let has_more = window_len > limit;
        let mut data: Vec<PaymentResponse> = Vec::new();
        let mut k: usize = 0;
        proof {
            assert(data.deep_view() =~= w.take(0).map_values(
                (|m: PaymentModel| response_model_of(m, None)),
            ));
        }
        while k < count
            invariant
                count <= window_len,
                window_len == w.len(),
                lo + window_len <= all.len(),
                w == all.subrange(lo as int, lo as int + window_len as int),
                all == sorted.deep_view(),
                k <= count,
                data.deep_view() == w.take(k as int).map_values(
                    (|m: PaymentModel| response_model_of(m, None)),
                ),
            decreases count - k,
        {
            proof {
                assert(all.len() == sorted@.len());
                assert(lo + k < sorted@.len());
                assert(sorted@.len() <= usize::MAX) by {
                    vstd::std_specs::vec::axiom_spec_len(&sorted);
                }
                assert(w[k as int] == all[lo as int + k as int]);
            }
            let ghost predata = data.deep_view();
            let pos: usize = lo + k;
            let item = payment_to_response(&sorted[pos], None);
            data.push(item);
            proof {
                assert(data.deep_view() =~= predata.push(response_model_of(w[k as int], None)));
                assert(data.deep_view() =~= w.take(k as int + 1).map_values(
                    (|m: PaymentModel| response_model_of(m, None)),
                ));
            }
            k += 1;
        }
        let resp = PaymentsListResponse {
            data: data,
            has_more: has_more,
            total: total,
            url: String::from_str("/v1/payments"),
        };
        proof {
            let lim = eff_limit(query.limit);
            let page = spec_page(all, query.starting_after, query.ending_before, lim);
            assert(w.take(count as int) =~= page);
            assert(resp@.data == page.map_values(
                (|m: PaymentModel| response_model_of(m, None)),
            ));
        }
        Ok(resp)
    }
}

} // verus!
