use ticket_api::error::AppError;
use ticket_api::reply::{Body, Reply};
use ticket_api::route::{create_router, Handler, Method, Route};
use ticket_api::schema::FilterOptions;
use ticket_api::store::StoreError;
use ticket_api::utils::jwt::ErrorResponse;

#[test]
fn every_error_has_its_status_and_message() {
    let table = [
        (AppError::InvalidToken, 400, "Invalid token"),
        (AppError::WrongCredential, 401, "Wrong credentials"),
        (AppError::MissingCredential, 400, "Missing credential"),
        (AppError::TokenCreation, 500, "Failed to create token"),
        (AppError::InternalServerError, 500, "An internal server error occured"),
        (AppError::UserDoesNotExist, 401, "User does not exist"),
        (AppError::UserAlreadyExits, 400, "User already exists"),
    ];
    for (error, status, message) in table {
        assert_eq!(error.status_code(), status);
        assert_eq!(error.message(), message);
        assert_eq!(
            error.into_response(),
            Reply {
                status,
                set_cookie: None,
                body: Body::Message(ErrorResponse { status: "error", message: message.to_string() }),
            }
        );
        assert_eq!(Reply::failure(error).is_success(), false);
    }
}

#[test]
fn success_is_a_status_of_the_two_hundreds() {
    assert!(Reply::plain(200, Body::Empty).is_success());
    assert!(Reply::plain(204, Body::Empty).is_success());
    assert!(Reply::plain(299, Body::Empty).is_success());
    assert!(!Reply::plain(199, Body::Empty).is_success());
    assert!(!Reply::plain(300, Body::Empty).is_success());
    assert!(!Reply::internal_error().is_success());
    assert_eq!(Reply::internal_error(), AppError::InternalServerError.into_response());
}

#[test]
fn duplicate_is_told_by_its_words() {
    let error = |text: &str| StoreError { row_not_found: false, message: text.to_string() };
    assert!(error("Duplicate entry").is_duplicate());
    assert!(error("error returned from database: 1062 (23000): Duplicate entry 'a' for key 'b'").is_duplicate());
    assert!(!error("Duplicate  entry").is_duplicate());
    assert!(!error("Duplicate entr").is_duplicate());
    assert!(!error("").is_duplicate());
}

#[test]
fn filter_options_default_to_none() {
    assert_eq!(FilterOptions::default(), FilterOptions { page: None, limit: None });
}

#[test]
fn routes_of_the_service() {
    let open = |method, path, handler| Route { method, path, handler, guarded: false };
    assert_eq!(
        create_router(),
        vec![
            Route { method: Method::Get, path: "/api/users/me", handler: Handler::GetMe, guarded: true },
            open(Method::Post, "/api/refresh", Handler::RefreshToken),
            open(Method::Get, "/api/logout", Handler::Logout),
            open(Method::Post, "/api/register", Handler::Register),
            open(Method::Post, "/api/login", Handler::Login),
            open(Method::Get, "/api/healthchecker", Handler::HealthChecker),
            open(Method::Get, "/api/ticket/all", Handler::TicketList),
            open(Method::Post, "/api/ticket/", Handler::CreateTicket),
            open(Method::Get, "/api/ticket/:id", Handler::GetTicket),
            open(Method::Patch, "/api/ticket/:id", Handler::EditTicket),
            open(Method::Delete, "/api/ticket/:id", Handler::DeleteTicket),
            open(Method::Get, "/api/comments/:id", Handler::CommentsList),
            open(Method::Post, "/api/comments/", Handler::CreateComment),
        ]
    );
}
