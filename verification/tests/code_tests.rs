use rivus::code::Code;

#[test]
fn test_code() {
    assert_eq!(Code::Success.as_i32(), 200);
    assert_eq!(Code::BadRequest.as_i32(), 400);
    assert_eq!(Code::Success.to_string(), "200");
    assert_eq!(Code::InternalServerError.to_string(), "500");
}

#[test]
fn every_code_has_its_number() {
    let all = vec![
        (Code::Success, 200, "200"),
        (Code::BadRequest, 400, "400"),
        (Code::Unauthorized, 401, "401"),
        (Code::Forbidden, 403, "403"),
        (Code::NotFound, 404, "404"),
        (Code::MethodNotAllowed, 405, "405"),
        (Code::TooManyRequests, 429, "429"),
        (Code::IdentifyError, 430, "430"),
        (Code::IdentifyExpired, 431, "431"),
        (Code::SignError, 432, "432"),
        (Code::InternalServerError, 500, "500"),
        (Code::FileTooLarge, 800, "800"),
        (Code::MissingHeader, 900, "900"),
        (Code::MissingParam, 901, "901"),
        (Code::IllegalParam, 902, "902"),
    ];
    for (code, number, text) in all {
        assert_eq!(code.as_i32(), number);
        assert_eq!(code.to_string(), text);
    }
}
