//! Rules of the REST surface: what each endpoint accepts, what it does and
//! what it answers. Errors are [`crate::error::ApiError`].

pub mod approvals;
pub mod asr;
pub mod audit;
pub mod config;
pub mod files;
pub mod fs;
pub mod health;
pub mod provider;
pub mod relay;
pub mod rules;
pub mod sessions;

use vstd::prelude::*;

use crate::text;

verus! {

/// A limit that a client asks for: between one and the largest, or the
/// default.
pub open spec fn limit_of(asked: Option<u32>, default: int, largest: int) -> int {
    match asked {
        None => default,
        Some(n) => if n < 1 {
            1
        } else if n > largest {
            largest
        } else {
            n as int
        },
    }
}

/// The limit that a client asks for, within bounds.
pub fn page_limit(asked: Option<u32>, default: u32, largest: u32) -> (r: u32)
    requires
        1 <= default <= largest,
    ensures
        r == limit_of(asked, default as int, largest as int),
        1 <= r <= largest,
{
    match asked {
        None => default,
        Some(n) => if n < 1 {
            1
        } else if n > largest {
            largest
        } else {
            n
        },
    }
}

/// The origins that may call from a browser, apart from the configured one.
pub open spec fn fixed_origins() -> Seq<Seq<char>> {
    seq![
        "http://localhost:5173"@,
        "http://127.0.0.1:5173"@,
        "tauri://localhost"@,
        "http://tauri.localhost"@,
        "http://localhost:5180"@,
        "http://127.0.0.1:5180"@,
    ]
}

/// Whether these are the origins that may call from a browser.
pub open spec fn are_allowed(origins: Seq<Seq<char>>, spa_origin: Option<String>) -> bool {
    origins == (match spa_origin {
        Some(origin) => fixed_origins().push(origin@),
        None => fixed_origins(),
    })
}

/// The origins that may call from a browser.
pub fn allowed_origins(spa_origin: &Option<String>) -> (r: Vec<String>)
    ensures
        are_allowed(text::views(r@), *spa_origin),
{
    let mut origins: Vec<String> = Vec::new();
    origins.push("http://localhost:5173".to_owned());
    origins.push("http://127.0.0.1:5173".to_owned());
    origins.push("tauri://localhost".to_owned());
    origins.push("http://tauri.localhost".to_owned());
    origins.push("http://localhost:5180".to_owned());
    origins.push("http://127.0.0.1:5180".to_owned());
    assert(text::views(origins@) == fixed_origins());
    match spa_origin {
        Some(origin) => {
            let copy = origin.clone();
            assert(text::views(origins@.push(copy)) == fixed_origins().push(copy@));
            origins.push(copy);
        },
        None => {},
    }
    origins
}

/// Law: a limit lies between one and the largest; without one asked for it is
/// the default, one within the bounds is kept, and one beyond them becomes the
/// nearer bound.
pub proof fn law_limit_is_bounded(asked: Option<u32>, default: int, largest: int)
    requires
        1 <= default <= largest,
    ensures
        1 <= limit_of(asked, default, largest) <= largest,
        asked is None ==> limit_of(asked, default, largest) == default,
        asked matches Some(n) ==> {
            &&& 1 <= n <= largest ==> limit_of(asked, default, largest) == n
            &&& n == 0 ==> limit_of(asked, default, largest) == 1
            &&& n > largest ==> limit_of(asked, default, largest) == largest
        },
{
}

/// Law: the origin that is configured may call, and so may those of the
/// development servers and of the desktop shell; no other may.
pub proof fn law_allowed_origins(
    origins: Seq<Seq<char>>,
    spa_origin: Option<String>,
    origin: Seq<char>,
)
    requires
        are_allowed(origins, spa_origin),
    ensures
        origins.contains(origin) <==> origin == "http://localhost:5173"@ || origin
            == "http://127.0.0.1:5173"@ || origin == "tauri://localhost"@ || origin
            == "http://tauri.localhost"@ || origin == "http://localhost:5180"@ || origin
            == "http://127.0.0.1:5180"@ || (spa_origin is Some && origin == spa_origin->0@),
{
    let fixed = fixed_origins();
    assert(fixed.len() == 6);
    assert forall|i: int| 0 <= i < 6 implies #[trigger] origins[i] == fixed[i] by {}
    assert(origins[0] == "http://localhost:5173"@ && origins[1] == "http://127.0.0.1:5173"@);
    assert(origins[2] == "tauri://localhost"@ && origins[3] == "http://tauri.localhost"@);
    assert(origins[4] == "http://localhost:5180"@ && origins[5] == "http://127.0.0.1:5180"@);
    if spa_origin is Some {
        assert(origins[6] == spa_origin->0@);
    }
}

} // verus!
