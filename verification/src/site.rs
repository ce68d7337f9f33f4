//! The standard route set: the fixed pages the server offers, each route
//! registered once with its content type, plus the rule that says which
//! requests produce a diagnostic line.

use vstd::prelude::*;

use crate::router::{
    entry_is, entry_matches, lemma_registered_pair_served, response_of, Method, ResponseModel,
    RouteTable,
};

verus! {

/// Whether `t` is the standard table: the bundled HTML index at `/`, the
/// stylesheet, the three script helpers, the POST diagnostic route, the
/// bundled image, and the given not-found page for everything else.
pub open spec fn is_standard_table(
    t: RouteTable,
    index_html: Seq<u8>,
    style_css: Seq<u8>,
    htmx_js: Seq<u8>,
    sse_js: Seq<u8>,
    ws_js: Seq<u8>,
    yipee_gif: Seq<u8>,
    not_found_html: Seq<u8>,
) -> bool {
    &&& t.wf()
    &&& t.entries@.len() == 7
    &&& entry_is(t.entries@[0], Method::Get, "/"@, 200, Some("text/html"@), index_html)
    &&& entry_is(t.entries@[1], Method::Get, "/style.css"@, 200, Some("text/css"@), style_css)
    &&& entry_is(
        t.entries@[2],
        Method::Get,
        "/htmx.min.js"@,
        200,
        Some("text/javascript"@),
        htmx_js,
    )
    &&& entry_is(t.entries@[3], Method::Get, "/sse.js"@, 200, Some("text/javascript"@), sse_js)
    &&& entry_is(t.entries@[4], Method::Get, "/ws.js"@, 200, Some("text/javascript"@), ws_js)
    &&& entry_is(t.entries@[5], Method::Post, "/test"@, 200, None, Seq::<u8>::empty())
    &&& entry_is(t.entries@[6], Method::Get, "/yipee.gif"@, 200, Some("image/gif"@), yipee_gif)
    &&& t.not_found_body@ == not_found_html
}

/// Build the standard table from the asset bytes, loaded once by the caller;
/// the table is immutable afterwards.
pub fn standard_routes(
    index_html: Vec<u8>,
    style_css: Vec<u8>,
    htmx_js: Vec<u8>,
    sse_js: Vec<u8>,
    ws_js: Vec<u8>,
    yipee_gif: Vec<u8>,
    not_found_html: Vec<u8>,
) -> (r: RouteTable)
    ensures
        is_standard_table(
            r,
            index_html@,
            style_css@,
            htmx_js@,
            sse_js@,
            ws_js@,
            yipee_gif@,
            not_found_html@,
        ),
{
    proof {
        reveal_strlit("/");
        reveal_strlit("/style.css");
        reveal_strlit("/htmx.min.js");
        reveal_strlit("/sse.js");
        reveal_strlit("/ws.js");
        reveal_strlit("/test");
        reveal_strlit("/yipee.gif");
    }
    let mut t = RouteTable::new(not_found_html);
    let a0 = t.register(
        Method::Get,
        "/".to_owned(),
        200,
        Some("text/html".to_owned()),
        index_html,
    );
    assert(a0);
    assert(!t.spec_contains(Method::Get, "/style.css"@)) by {
        assert forall|k: int| 0 <= k < t.entries@.len() implies !entry_matches(
            #[trigger] t.entries@[k],
            Method::Get,
            "/style.css"@,
        ) by {
            assert(t.entries@.len() == 1);
            assert("/"@.len() == 1);
            assert("/style.css"@.len() == 10);
            assert(t.entries@[0].path@ == "/"@);
        }
    }
    let a1 = t.register(
        Method::Get,
        "/style.css".to_owned(),
        200,
        Some("text/css".to_owned()),
        style_css,
    );
    assert(a1);
    assert(!t.spec_contains(Method::Get, "/htmx.min.js"@)) by {
        assert forall|k: int| 0 <= k < t.entries@.len() implies !entry_matches(
            #[trigger] t.entries@[k],
            Method::Get,
            "/htmx.min.js"@,
        ) by {
            assert(t.entries@.len() == 2);
            assert("/"@.len() == 1);
            assert("/style.css"@.len() == 10);
            assert("/htmx.min.js"@.len() == 12);
            assert(t.entries@[0].path@ == "/"@);
            assert(t.entries@[1].path@ == "/style.css"@);
        }
    }
    let a2 = t.register(
        Method::Get,
        "/htmx.min.js".to_owned(),
        200,
        Some("text/javascript".to_owned()),
        htmx_js,
    );
    assert(a2);
    assert(!t.spec_contains(Method::Get, "/sse.js"@)) by {
        assert forall|k: int| 0 <= k < t.entries@.len() implies !entry_matches(
            #[trigger] t.entries@[k],
            Method::Get,
            "/sse.js"@,
        ) by {
            assert(t.entries@.len() == 3);
            assert("/"@.len() == 1);
            assert("/style.css"@.len() == 10);
            assert("/htmx.min.js"@.len() == 12);
            assert("/sse.js"@.len() == 7);
            assert(t.entries@[0].path@ == "/"@);
            assert(t.entries@[1].path@ == "/style.css"@);
            assert(t.entries@[2].path@ == "/htmx.min.js"@);
        }
    }
    let a3 = t.register(
        Method::Get,
        "/sse.js".to_owned(),
        200,
        Some("text/javascript".to_owned()),
        sse_js,
    );
    assert(a3);
    assert(!t.spec_contains(Method::Get, "/ws.js"@)) by {
        assert forall|k: int| 0 <= k < t.entries@.len() implies !entry_matches(
            #[trigger] t.entries@[k],
            Method::Get,
            "/ws.js"@,
        ) by {
            assert(t.entries@.len() == 4);
            assert("/"@.len() == 1);
            assert("/style.css"@.len() == 10);
            assert("/htmx.min.js"@.len() == 12);
            assert("/sse.js"@.len() == 7);
            assert("/ws.js"@.len() == 6);
            assert(t.entries@[0].path@ == "/"@);
            assert(t.entries@[1].path@ == "/style.css"@);
            assert(t.entries@[2].path@ == "/htmx.min.js"@);
            assert(t.entries@[3].path@ == "/sse.js"@);
        }
    }
    let a4 = t.register(
        Method::Get,
        "/ws.js".to_owned(),
        200,
        Some("text/javascript".to_owned()),
        ws_js,
    );
    assert(a4);
    assert(!t.spec_contains(Method::Post, "/test"@)) by {
        assert forall|k: int| 0 <= k < t.entries@.len() implies !entry_matches(
            #[trigger] t.entries@[k],
            Method::Post,
            "/test"@,
        ) by {
            assert(t.entries@.len() == 5);
            assert("/"@.len() == 1);
            assert("/style.css"@.len() == 10);
            assert("/htmx.min.js"@.len() == 12);
            assert("/sse.js"@.len() == 7);
            assert("/ws.js"@.len() == 6);
            assert("/test"@.len() == 5);
            assert(t.entries@[0].path@ == "/"@);
            assert(t.entries@[1].path@ == "/style.css"@);
            assert(t.entries@[2].path@ == "/htmx.min.js"@);
            assert(t.entries@[3].path@ == "/sse.js"@);
            assert(t.entries@[4].path@ == "/ws.js"@);
        }
    }
    let a5 = t.register(Method::Post, "/test".to_owned(), 200, None, Vec::new());
    assert(a5);
    assert(!t.spec_contains(Method::Get, "/yipee.gif"@)) by {
        assert forall|k: int| 0 <= k < t.entries@.len() implies !entry_matches(
            #[trigger] t.entries@[k],
            Method::Get,
            "/yipee.gif"@,
        ) by {
            assert(t.entries@.len() == 6);
            assert("/"@.len() == 1);
            assert("/style.css"@.len() == 10);
            assert("/htmx.min.js"@.len() == 12);
            assert("/sse.js"@.len() == 7);
            assert("/ws.js"@.len() == 6);
            assert("/test"@.len() == 5);
            assert("/yipee.gif"@.len() == 10);
            assert(t.entries@[0].path@ == "/"@);
            assert(t.entries@[1].path@ == "/style.css"@);
            assert(t.entries@[2].path@ == "/htmx.min.js"@);
            assert(t.entries@[3].path@ == "/sse.js"@);
            assert(t.entries@[4].path@ == "/ws.js"@);
            assert(t.entries@[5].path@ == "/test"@);
            assert("/yipee.gif"@[1] != "/style.css"@[1]);
        }
    }
    let a6 = t.register(
        Method::Get,
        "/yipee.gif".to_owned(),
        200,
        Some("image/gif".to_owned()),
        yipee_gif,
    );
    assert(a6);
    t
}

/// The diagnostic line the server writes while serving a request, if any: the
/// POST `/test` route logs one fixed line per call, and no other request logs.
pub fn diagnostic_for(m: Method, path: &String) -> (r: Option<String>)
    ensures
        (r is Some) == (m == Method::Post && path@ == "/test"@),
        r matches Some(line) ==> line@ == "TEST"@,
{
    let probe: String = "/test".to_owned();
    if m == Method::Post && *path == probe {
        Some("TEST".to_owned())
    } else {
        None
    }
}

/// Requests to the index never interfere with one another: the table is never
/// written while serving, so every GET `/` on the standard table, however
/// many run at once, is answered with status 200 and the full, unmodified
/// index body.
pub proof fn lemma_index_served_whole(
    t: RouteTable,
    index_html: Seq<u8>,
    style_css: Seq<u8>,
    htmx_js: Seq<u8>,
    sse_js: Seq<u8>,
    ws_js: Seq<u8>,
    yipee_gif: Seq<u8>,
    not_found_html: Seq<u8>,
)
    requires
        is_standard_table(
            t,
            index_html,
            style_css,
            htmx_js,
            sse_js,
            ws_js,
            yipee_gif,
            not_found_html,
        ),
    ensures
        t.spec_respond(Method::Get, "/"@) == (ResponseModel {
            status: 200,
            content_type: Some("text/html"@),
            body: index_html,
        }),
{
    lemma_registered_pair_served(t, 0);
    assert(t.spec_respond(Method::Get, "/"@) =~= response_of(t.entries@[0]));
}

/// POST `/test` on the standard table is always answered with status 200, no
/// content-type header and an empty body.
pub proof fn lemma_post_test_ok(
    t: RouteTable,
    index_html: Seq<u8>,
    style_css: Seq<u8>,
    htmx_js: Seq<u8>,
    sse_js: Seq<u8>,
    ws_js: Seq<u8>,
    yipee_gif: Seq<u8>,
    not_found_html: Seq<u8>,
)
    requires
        is_standard_table(
            t,
            index_html,
            style_css,
            htmx_js,
            sse_js,
            ws_js,
            yipee_gif,
            not_found_html,
        ),
    ensures
        t.spec_respond(Method::Post, "/test"@) == (ResponseModel {
            status: 200,
            content_type: None,
            body: Seq::<u8>::empty(),
        }),
{
    lemma_registered_pair_served(t, 5);
    assert(t.spec_respond(Method::Post, "/test"@) =~= response_of(t.entries@[5]));
}

} // verus!
