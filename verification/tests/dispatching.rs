use earningsfeed_cli::cli::{
    AuthAction, CompaniesAction, Command, FilingsAction, InsiderAction, TransactionDirectionArg,
};
use earningsfeed_cli::config::Config;
use earningsfeed_cli::dispatch::{authorize, plan, ApiRequest, Plan};
use earningsfeed_cli::error::ErrorKind;

#[test]
fn plan_routes_auth_commands_locally() {
    let p = plan(Command::Auth { action: AuthAction::Status });
    assert!(matches!(p, Plan::Auth { action: AuthAction::Status }));
}

#[test]
fn plan_routes_filings_get_with_the_accession_untouched() {
    let p = plan(Command::Filings {
        action: FilingsAction::Get { accession: "0000320193-24-000001".to_string() },
    });
    match p {
        Plan::Api { request: ApiRequest::FilingsGet { accession } } => {
            assert_eq!(accession, "0000320193-24-000001");
        }
        _ => panic!("a filings get must become one filings-get request"),
    }
}

#[test]
fn plan_routes_companies_get_with_the_cik_untouched() {
    let p = plan(Command::Companies { action: CompaniesAction::Get { cik: 320193 } });
    match p {
        Plan::Api { request: ApiRequest::CompaniesGet { cik } } => assert_eq!(cik, 320193),
        _ => panic!("a companies get must become one companies-get request"),
    }
}

#[test]
fn plan_builds_the_insider_list_request() {
    let p = plan(Command::Insider {
        action: InsiderAction::List {
            ticker: None,
            cik: None,
            person_cik: None,
            direction: Some(TransactionDirectionArg::Buy),
            min_value: Some(100000),
            limit: None,
            cursor: None,
        },
    });
    match p {
        Plan::Api { request: ApiRequest::InsiderList { params } } => {
            assert_eq!(params.limit, 25);
            assert_eq!(params.min_value, Some(100000));
            assert!(params.ticker.is_none());
        }
        _ => panic!("an insider list must become one insider-list request"),
    }
}

#[test]
fn authorize_without_credential_fails_before_any_request_exists() {
    let config = Config { api_key: None };
    let request = ApiRequest::FilingsGet { accession: "0000000000-00-000000".to_string() };
    let err = authorize(&config, request).err().expect("no credential must be refused");
    assert_eq!(err.kind_of(), ErrorKind::Authentication);
    assert_eq!(err.exit_code(), 3);
}

#[test]
fn filings_list_without_credential_fails_with_exit_3_before_any_request() {
    let p = plan(Command::Filings {
        action: FilingsAction::List {
            ticker: None,
            cik: None,
            forms: None,
            status: None,
            limit: Some(150),
            cursor: None,
        },
    });
    let request = match p {
        Plan::Api { request } => request,
        _ => panic!("a filings list must become one request"),
    };
    let err = authorize(&Config { api_key: None }, request)
        .err()
        .expect("no credential must be refused");
    assert_eq!(err.kind_of(), ErrorKind::Authentication);
    assert_eq!(err.exit_code(), 3);
}

#[test]
fn authorize_attaches_the_stored_credential() {
    let config = Config { api_key: Some("abc123xyz987".to_string()) };
    let request = ApiRequest::CompaniesGet { cik: 320193 };
    let authorized = authorize(&config, request).ok().expect("a stored credential passes");
    assert_eq!(authorized.api_key, "abc123xyz987");
    assert!(matches!(authorized.request, ApiRequest::CompaniesGet { cik: 320193 }));
}
