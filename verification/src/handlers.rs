//! What the API answers to each request, once the database work is done:
//! the created user, the created post, or a page of posts with the data that
//! places it in the whole listing. Any failed database work is answered with
//! an internal server error.
use vstd::prelude::*;
use crate::models::User;
use crate::post::read::response_views;
use crate::response_models::{
    Meta, PaginatedResponse, PaginatedView, PostResponse, Response, ResponseBody, ResponseBodyView,
};

verus! {

/// The database reported an error.
pub struct QueryError;

/// The HTTP status of a request that could not be served.
pub enum ErrorStatus {
    InternalServerError,
}

/// The page listed when the client names none.
pub const DEFAULT_PAGE: i64 = 1;

/// The page size when the client names none.
pub const DEFAULT_LIMIT: i64 = 10;

/// The answer to the creation of a user: the stored user, or an internal
/// server error when the insert failed.
pub fn create_user_handler(created: Result<User, QueryError>) -> (r: Result<Response, ErrorStatus>)
    ensures
        match created {
            Ok(u) => r matches Ok(resp) && resp@ == ResponseBodyView::User(u@),
            Err(_) => r matches Err(ErrorStatus::InternalServerError),
        },
{
    match created {
        Ok(user) => Ok(Response { body: ResponseBody::User(user) }),
        Err(_) => Err(ErrorStatus::InternalServerError),
    }
}

/// The answer to the creation of a post: the post as clients see it, or an
/// internal server error when the creation failed.
pub fn create_post_handler(created: Result<PostResponse, QueryError>) -> (r: Result<
    Response,
    ErrorStatus,
>)
    ensures
        match created {
            Ok(p) => r matches Ok(resp) && resp@ == ResponseBodyView::Post(p@),
            Err(_) => r matches Err(ErrorStatus::InternalServerError),
        },
{
    match created {
        Ok(post) => Ok(Response { body: ResponseBody::Post(post) }),
        Err(_) => Err(ErrorStatus::InternalServerError),
    }
}

/// The page and the page size of a listing: those the client named, else
/// the first page and pages of ten posts.
pub fn page_params(page: Option<i64>, limit: Option<i64>) -> (r: (i64, i64))
    ensures
        r.0 == match page {
            Some(p) => p,
            None => DEFAULT_PAGE,
        },
        r.1 == match limit {
            Some(l) => l,
            None => DEFAULT_LIMIT,
        },
{
    let page = match page {
        Some(p) => p,
        None => DEFAULT_PAGE,
    };
    let limit = match limit {
        Some(l) => l,
        None => DEFAULT_LIMIT,
    };
    (page, limit)
}

/// Integer division that rounds toward zero, as Rust's `/` on integers does.
pub open spec fn div_toward_zero(a: int, b: int) -> int {
    if a >= 0 {
        a / b
    } else {
        -((-a) / b)
    }
}

/// The number of pages of `limit` posts that `total` posts fill.
pub open spec fn total_pages_of(total: int, limit: int) -> int {
    div_toward_zero(total + limit - 1, limit)
}

/// The place in the whole listing of the first post of page `page`,
/// counting from 1.
pub open spec fn first_of_page(page: int, limit: int) -> int {
    (page - 1) * limit + 1
}

/// Whether every step of computing the data of a page stays in 64 bits,
/// and the page size is not zero.
pub open spec fn meta_fits(page: i64, limit: i64, total: i64, count: nat) -> bool {
    let from = first_of_page(page as int, limit as int);
    &&& limit != 0
    &&& i64::MIN <= total + limit <= i64::MAX
    &&& i64::MIN <= total + limit - 1 <= i64::MAX
    &&& !(total + limit - 1 == i64::MIN && limit == -1)
    &&& i64::MIN <= page - 1
    &&& i64::MIN <= (page - 1) * limit <= i64::MAX
    &&& from <= i64::MAX
    &&& count <= i64::MAX
    &&& i64::MIN <= from + count <= i64::MAX
    &&& i64::MIN <= from + count - 1
}

/// The data that places page `page` of `limit` posts, holding `count` posts,
/// in a listing of `total` posts: the page and its size, the places of its
/// first and last posts (counting from 1), the number of pages, and the
/// number of posts.
pub open spec fn meta_of(page: i64, limit: i64, total: i64, count: nat) -> Meta {
    let from = first_of_page(page as int, limit as int);
    Meta {
        current_page: page,
        per_page: limit,
        from: from as i64,
        to: (from + count - 1) as i64,
        total_pages: total_pages_of(total as int, limit as int) as i64,
        total_docs: total,
    }
}

/// Whether the data of a page can be computed; where it cannot, computing it
/// divides by zero or overflows.
pub fn meta_in_range(page: i64, limit: i64, total: i64, count: usize) -> (r: bool)
    ensures
        r == meta_fits(page, limit, total, count as nat),
{
    if limit == 0 {
        return false;
    }
    let num = match total.checked_add(limit) {
        Some(s) => match s.checked_sub(1) {
            Some(n) => n,
            None => return false,
        },
        None => return false,
    };
    if num == i64::MIN && limit == -1 {
        return false;
    }
    let from = match page.checked_sub(1) {
        Some(p) => match p.checked_mul(limit) {
            Some(o) => match o.checked_add(1) {
                Some(f) => f,
                None => return false,
            },
            None => return false,
        },
        None => return false,
    };
    if count as u64 > i64::MAX as u64 {
        return false;
    }
    match from.checked_add(count as i64) {
        Some(t) => t.checked_sub(1).is_some(),
        None => false,
    }
}

/// The data that places a page of `count` posts in the whole listing.
pub fn pagination_meta(page: i64, limit: i64, total: i64, count: usize) -> (m: Meta)
    requires
        meta_fits(page, limit, total, count as nat),
    ensures
        m == meta_of(page, limit, total, count as nat),
        m.current_page == page,
        m.per_page == limit,
        m.total_docs == total,
        m.from == (page - 1) * limit + 1,
        m.to == (page - 1) * limit + count,
{
    let total_pages = (total + limit - 1) / limit;
    let from = (page - 1) * limit + 1;
    let to = from + count as i64 - 1;
    Meta {
        current_page: page,
        per_page: limit,
        from,
        to,
        total_pages,
        total_docs: total,
    }
}

/// The answer to a listing of page `page` of `limit` posts: the page of
/// posts with the data that places it in the whole listing, or an internal
/// server error when the listing failed.
pub fn list_posts_handler(
    page: i64,
    limit: i64,
    listed: Result<(Vec<PostResponse>, i64), QueryError>,
) -> (r: Result<Response, ErrorStatus>)
    requires
        listed matches Ok((posts, total)) ==> meta_fits(page, limit, total, posts.len() as nat),
    ensures
        match listed {
            Ok((posts, total)) => r matches Ok(resp) && resp@ == ResponseBodyView::Posts(
                PaginatedView {
                    records: response_views(posts@),
                    meta: meta_of(page, limit, total, posts.len() as nat),
                },
            ),
            Err(_) => r matches Err(ErrorStatus::InternalServerError),
        },
{
    match listed {
        Ok((posts, total)) => {
            let meta = pagination_meta(page, limit, total, posts.len());
            let page = PaginatedResponse { records: posts, meta };
            Ok(Response { body: ResponseBody::Posts(page) })
        },
        Err(_) => Err(ErrorStatus::InternalServerError),
    }
}

/// The data of a page describes it: the requested page and page size
/// (whatever the page holds), the total number of posts, the first place
/// `(page - 1) * limit + 1` and the last place `(page - 1) * limit + count`;
/// and the number of pages is `total + limit - 1` divided by `limit`
/// rounding toward zero: what is left over has the sign of the dividend and
/// is smaller than the divisor in size.
pub proof fn lemma_meta_describes_page(page: i64, limit: i64, total: i64, count: nat)
    requires
        meta_fits(page, limit, total, count),
    ensures
        meta_of(page, limit, total, count).current_page == page,
        meta_of(page, limit, total, count).per_page == limit,
        meta_of(page, limit, total, count).total_docs == total,
        meta_of(page, limit, total, count).from == (page - 1) * limit + 1,
        meta_of(page, limit, total, count).to == (page - 1) * limit + count,
        ({
            let n = total + limit - 1;
            let left = n - meta_of(page, limit, total, count).total_pages * limit;
            &&& n >= 0 ==> left >= 0
            &&& n <= 0 ==> left <= 0
            &&& (if left >= 0 { left } else { -left }) < (if limit >= 0 { limit as int } else { -limit })
        }),
{
    let n: int = total + limit - 1;
    let l: int = limit as int;
    lemma_division_bounds(n, l);
    lemma_division_bounds(-n, l);
    let tp = div_toward_zero(n, l);
    if n >= 0 {
        lemma_quotient_no_larger(n, l);
    } else {
        lemma_quotient_no_larger(-n, l);
    }
    assert(i64::MIN <= tp <= i64::MAX);
    assert(meta_of(page, limit, total, count).total_pages == tp);
    if n >= 0 {
        assert(n - tp * l == n % l) by (nonlinear_arith)
            requires
                n == l * (n / l) + n % l,
                tp == n / l,
        ;
        if n == 0 {
            assert(n % l == 0) by (nonlinear_arith)
                requires
                    n == 0,
                    n == l * (n / l) + n % l,
                    0 <= n % l,
                    n % l < (if l >= 0 { l } else { -l }),
            ;
        }
    } else {
        assert(n - tp * l == -((-n) % l)) by (nonlinear_arith)
            requires
                -n == l * ((-n) / l) + (-n) % l,
                tp == -((-n) / l),
        ;
    }
}

/// A quotient is no larger in size than a dividend that is not negative.
proof fn lemma_quotient_no_larger(x: int, d: int)
    requires
        d != 0,
        x >= 0,
    ensures
        -x <= x / d <= x,
        d == 1 ==> x / d == x,
        d == -1 ==> x / d == -x,
        (d >= 2 || d <= -2) ==> -x <= 2 * (x / d) <= x,
{
    lemma_division_bounds(x, d);
    let q = x / d;
    let r = x % d;
    if d > 0 {
        assert(0 <= q <= x && (d >= 2 ==> 2 * q <= x)) by (nonlinear_arith)
            requires
                x == d * q + r,
                0 <= r < d,
                x >= 0,
        ;
    } else {
        assert(-x <= q <= 0 && (d <= -2 ==> -x <= 2 * q)) by (nonlinear_arith)
            requires
                x == d * q + r,
                0 <= r < -d,
                x >= 0,
        ;
    }
}

/// Division of integers: the dividend is the divisor times the quotient
/// plus a remainder that is not negative and smaller than the divisor in size.
proof fn lemma_division_bounds(x: int, d: int)
    by (nonlinear_arith)
    requires
        d != 0,
    ensures
        x == d * (x / d) + x % d,
        0 <= x % d,
        x % d < (if d >= 0 { d } else { -d }),
{
}

/// With a positive page size, the number of pages is the least number of
/// pages that hold all the posts: the pages before the last one do not hold
/// them all, and all the pages do.
pub proof fn lemma_total_pages_is_least(total: int, limit: int)
    requires
        total >= 0,
        limit > 0,
    ensures
        total_pages_of(total, limit) >= 0,
        total_pages_of(total, limit) * limit >= total,
        (total_pages_of(total, limit) - 1) * limit < total,
{
    let n = total + limit - 1;
    let q = n / limit;
    let r = n % limit;
    vstd::arithmetic::div_mod::lemma_fundamental_div_mod(n, limit);
    vstd::arithmetic::div_mod::lemma_mod_pos_bound(n, limit);
    assert(q >= 0) by (nonlinear_arith)
        requires
            n == limit * q + r,
            0 <= r < limit,
            n >= 0,
            limit > 0,
    ;
    assert(q * limit >= total && (q - 1) * limit < total) by (nonlinear_arith)
        requires
            n == limit * q + r,
            0 <= r < limit,
            n == total + limit - 1,
    ;
}

/// A page holds as many posts as lie from its first place to its last one.
pub proof fn lemma_page_span(page: i64, limit: i64, total: i64, count: nat)
    requires
        meta_fits(page, limit, total, count),
    ensures
        meta_of(page, limit, total, count).to - meta_of(page, limit, total, count).from + 1 == count,
{
}

/// The first page starts at the first post.
pub proof fn lemma_first_page_starts_at_one(limit: i64, total: i64, count: nat)
    requires
        meta_fits(1, limit, total, count),
    ensures
        meta_of(1, limit, total, count).from == 1,
{
}

/// Consecutive pages of the same size follow each other without gap or
/// overlap: the next page starts right after the places a full page covers.
pub proof fn lemma_pages_are_contiguous(page: int, limit: int)
    ensures
        first_of_page(page + 1, limit) == first_of_page(page, limit) + limit,
{
    assert((page + 1 - 1) * limit == (page - 1) * limit + limit) by (nonlinear_arith);
}

} // verus!
