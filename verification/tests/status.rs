//! Which way a status is written.

use network_operator::kube_error::{ErrorResponse, KubeError};
use network_operator::status::{after, unsupported, Request, Route, Step};

fn api_err(code: u16) -> KubeError {
    KubeError::Api(ErrorResponse {
        status: "Failure".into(),
        message: String::new(),
        reason: String::new(),
        code,
    })
}

#[test]
fn missing_routes_fall_through_but_real_rejections_do_not() {
    for code in [404, 405, 501] {
        assert!(unsupported(&api_err(code)), "{code} should fall through");
    }
    for code in [400, 403, 409, 422, 500] {
        assert!(!unsupported(&api_err(code)), "{code} must surface");
    }
}

#[test]
fn the_ladder_goes_down_one_rung_at_a_time() {
    let mut asked = Request::Patch;
    let mut path = vec![asked];
    // Every write is unsupported, every read succeeds.
    loop {
        let reply = match asked {
            Request::Read(_) => Ok(()),
            _ => Err(api_err(405)),
        };
        match after(asked, reply) {
            Step::Ask(next) => {
                path.push(next);
                asked = next;
            }
            end => {
                assert_eq!(end, Step::Failed(api_err(405)));
                break;
            }
        }
    }
    assert_eq!(
        path,
        vec![
            Request::Patch,
            Request::Read(Route::Subresource),
            Request::Put(Route::Subresource),
            Request::Read(Route::Whole),
            Request::Put(Route::Whole),
        ]
    );
}

#[test]
fn a_write_that_succeeds_ends_the_ladder() {
    for asked in
        [Request::Patch, Request::Put(Route::Subresource), Request::Put(Route::Whole)]
    {
        assert_eq!(after(asked, Ok(())), Step::Written);
    }
}

#[test]
fn rejected_writes_and_failed_reads_surface() {
    for asked in
        [Request::Patch, Request::Put(Route::Subresource), Request::Put(Route::Whole)]
    {
        assert_eq!(after(asked, Err(api_err(409))), Step::Failed(api_err(409)));
    }
    for route in [Route::Subresource, Route::Whole] {
        assert_eq!(after(Request::Read(route), Err(api_err(404))), Step::Failed(api_err(404)));
    }
    let lost = KubeError::Other("connection reset".into());
    assert!(!unsupported(&lost));
    assert_eq!(after(Request::Patch, Err(lost.clone())), Step::Failed(lost));
}
