use query_engine::auth::{
    CustomDeserializable, LoginIdentifier, LoginRequest, RegisterRequest, TwoFaType,
};
use query_engine::email::EmailClient;
use query_engine::hasher::Hasher;
use query_engine::jwt::{BackendClaims, Claim, JwtError, JwtToken, UserClaims};
use query_engine::secrets::{load_repos, load_secret, Secrets};
use query_engine::timer::Timer;
use query_engine::totp::{
    RedisClient, StorePlan, TotpError, TotpGen, TotpRedisAction, TotpRequest, TotpStorage,
};
use query_engine::uid::{compose_uid, generate_uid, millis_since_epoch};

fn fault(message: &str) -> Result<(), String> {
    Err(message.to_string())
}

#[test]
fn user_names() {
    assert_eq!(RegisterRequest::validate_username("abc"), Ok(()));
    assert_eq!(RegisterRequest::validate_username("a-b_C9"), Ok(()));
    assert_eq!(RegisterRequest::validate_username(&"a".repeat(30)), Ok(()));
    assert_eq!(
        RegisterRequest::validate_username("ab"),
        fault("Username must be at least 3 characters long.")
    );
    assert_eq!(
        RegisterRequest::validate_username(""),
        fault("Username must be at least 3 characters long.")
    );
    assert_eq!(
        RegisterRequest::validate_username(&"a".repeat(31)),
        fault("Username cant be longer than 30 characters")
    );
    for bad in ["a b", "ab.", "abc!", "éé", "ab\n"] {
        assert_eq!(
            RegisterRequest::validate_username(bad),
            fault("Only the following characters are allowed: a-z, A-Z, 0-9, _-"),
            "{:?}",
            bad
        );
    }
    assert_eq!(
        RegisterRequest::validate_username("é"),
        fault("Username must be at least 3 characters long.")
    );
}

#[test]
fn passwords() {
    assert_eq!(RegisterRequest::validate_password("Abcdef1!"), Ok(()));
    assert_eq!(RegisterRequest::validate_password("1aA?xxxxxxxxxxxxxxxx"), Ok(()));
    assert_eq!(
        RegisterRequest::validate_password("Ab1!"),
        fault("Your password must be at least 8 characters long!")
    );
    assert_eq!(
        RegisterRequest::validate_password(&"Ab1!".repeat(17)),
        fault("your password is too long, max: 64 characters")
    );
    assert_eq!(RegisterRequest::validate_password(&"Ab1!".repeat(16)), Ok(()));
    assert_eq!(
        RegisterRequest::validate_password("Abcdefg!"),
        fault("Password must contain at least one digit.")
    );
    assert_eq!(
        RegisterRequest::validate_password("abcdefg1!"),
        fault("Password must contain at least one uppercase letter.")
    );
    assert_eq!(
        RegisterRequest::validate_password("ABCDEFG1!"),
        fault("Password must contain at least one lowercase letter.")
    );
    assert_eq!(
        RegisterRequest::validate_password("Abcdefg1_"),
        fault("Password must contain at least one special character. Allowed special characters: !@#$%^&*()-_=+?")
    );
    assert_eq!(
        RegisterRequest::validate_password("________"),
        fault("Password must contain at least one digit.")
    );
}

#[test]
fn addresses() {
    assert_eq!(RegisterRequest::validate_email("a@b.co"), Ok(()));
    assert_eq!(RegisterRequest::validate_email("first.last-1@mail-host.example"), Ok(()));
    assert_eq!(RegisterRequest::validate_email("@"), Ok(()));
    assert_eq!(RegisterRequest::validate_email("ab.co"), fault("email does not contain an @"));
    assert_eq!(RegisterRequest::validate_email(""), fault("email does not contain an @"));
    assert_eq!(RegisterRequest::validate_email("a@b@c"), fault("email does not contain an @"));
    assert_eq!(
        RegisterRequest::validate_email(&format!("{}@b.co", "a".repeat(65))),
        fault("the part in the email before the @ is too long")
    );
    assert_eq!(RegisterRequest::validate_email(&format!("{}@b.co", "a".repeat(64))), Ok(()));
    assert_eq!(
        RegisterRequest::validate_email(&format!("a@{}", "b".repeat(256))),
        fault("the domain part the email is too long")
    );
    assert_eq!(RegisterRequest::validate_email(&format!("a@{}", "b".repeat(255))), Ok(()));
    for bad in ["a+b@c.de", "a_b@c.de", "a@c_d.e", "a b@c.de", "ä@c.de"] {
        assert_eq!(
            RegisterRequest::validate_email(bad),
            fault("Email format is wrong. Only letters, digits, dots, and hyphens are allowed."),
            "{:?}",
            bad
        );
    }
}

#[test]
fn sign_up_names_the_first_fault() {
    let request = |username: &str, email: &str, password: &str| RegisterRequest {
        username: username.to_string(),
        password: password.to_string(),
        email: email.to_string(),
    };
    assert_eq!(request("alice", "a@b.co", "Abcdef1!").validate(), Ok(()));
    assert_eq!(
        request("al", "nowhere", "short").validate(),
        fault("Username must be at least 3 characters long.")
    );
    assert_eq!(
        request("alice", "nowhere", "short").validate(),
        fault("email does not contain an @")
    );
    assert_eq!(
        request("alice", "a@b.co", "short").validate(),
        fault("Your password must be at least 8 characters long!")
    );
}

#[test]
fn sign_in_names() {
    assert_eq!(
        LoginIdentifier::parse("alice@example.com"),
        Ok(LoginIdentifier::Email("alice@example.com".to_string()))
    );
    assert_eq!(
        LoginIdentifier::parse("a.b%c+d-e@x-y.z9.org"),
        Ok(LoginIdentifier::Email("a.b%c+d-e@x-y.z9.org".to_string()))
    );
    for name in ["alice", "alice@example", "alice@example.c", "@example.com", "a b@example.com", ""]
    {
        assert_eq!(
            LoginIdentifier::parse(name),
            Ok(LoginIdentifier::Username(name.to_string())),
            "{:?}",
            name
        );
    }
    assert_eq!(LoginIdentifier::parse("älice"), Err("username is not in ascii".to_string()));
    assert_eq!(
        <LoginIdentifier as CustomDeserializable>::from_str("bob@example.org"),
        Ok(LoginIdentifier::Email("bob@example.org".to_string()))
    );
    assert_eq!(
        LoginIdentifier::from_verdict("x", true),
        LoginIdentifier::Email("x".to_string())
    );
    assert_eq!(
        LoginIdentifier::from_verdict("x", false),
        LoginIdentifier::Username("x".to_string())
    );
    let request = LoginRequest {
        identifier: LoginIdentifier::parse("carol").unwrap(),
        password: "pw".to_string(),
    };
    assert_eq!(request.identifier, LoginIdentifier::Username("carol".to_string()));
}

#[test]
fn second_factor_names() {
    assert_eq!(TwoFaType::Password.as_str(), "password");
    assert_eq!(TwoFaType::Email.as_str(), "email");
    assert_eq!(TotpStorage::key_for(TwoFaType::Email, 42), "email:42");
    assert_eq!(TotpStorage::key_for(TwoFaType::Password, -7), "password:-7");
}

#[test]
fn hashes_verify() {
    let hashed = Hasher::hash("correct horse").unwrap();
    assert_ne!(hashed, "correct horse");
    assert_eq!(hashed.len(), 60);
    assert_eq!(Hasher::verify("correct horse", &hashed), Ok(true));
    assert_eq!(Hasher::verify("wrong horse", &hashed), Ok(false));
    assert!(Hasher::verify("correct horse", "no hash at all").is_err());
}

#[test]
fn a_known_hash_verifies() {
    let known = "$2y$05$bvIG6Nmid91Mu9RcmmWZfO5HJIMCT8riNW0hEp8f6/FuA2/mHZFpe";
    assert_eq!(Hasher::verify("password", known), Ok(true));
    assert_eq!(Hasher::verify("Password", known), Ok(false));
}

#[test]
fn claims_expire() {
    assert!(JwtToken::is_expired_at(100, 100));
    assert!(JwtToken::is_expired_at(100, 101));
    assert!(!JwtToken::is_expired_at(100, 99));
    let user = UserClaims { user_id: "7".to_string(), exp: 1000, jti: "j".to_string() };
    assert_eq!(user.exp(), 1000);
    assert_eq!(JwtToken::check_claims(user.clone(), 999), Ok(user.clone()));
    assert_eq!(JwtToken::check_claims(user.clone(), 1000), Err(JwtError::ExpiredSignature));
    let backend = BackendClaims { exp: 5, timestamp: 1 };
    assert_eq!(backend.exp(), 5);
    assert_eq!(JwtToken::check_claims(backend, 4), Ok(backend));
    assert_eq!(JwtToken::check_claims(backend, 6), Err(JwtError::ExpiredSignature));
}

#[test]
fn the_clock_is_past_2024() {
    let now = JwtToken::get_current_timestamp();
    assert!(now > 1_704_067_200);
    assert!(!JwtToken::is_token_expired(usize::MAX));
    assert!(JwtToken::is_token_expired(0));
    assert_eq!(JwtToken::new("key").secret(), "key");
}

#[test]
fn one_time_codes() {
    let generator = TotpGen::new("12345678901234567890");
    assert_eq!(generator.secret, "12345678901234567890");
    assert_eq!(generator.code_at(59), Ok("287082".to_string()));
    assert_eq!(generator.code_at(1111111109), Ok("081804".to_string()));
    assert_eq!(generator.code_at(30), generator.code_at(59));
    assert_ne!(generator.code_at(29), generator.code_at(30));
    let code = generator.generate_totp().unwrap();
    assert_eq!(code.len(), 6);
    assert!(code.chars().all(|c| c.is_ascii_digit()));
}

#[test]
fn short_secrets_make_no_code() {
    let generator = TotpGen::new("123456789012345");
    assert_eq!(generator.code_at(59), Err(TotpError::Secret));
    assert_eq!(generator.generate_totp(), Err(TotpError::Secret));
    assert_eq!(TotpError::Secret.message(), "failed to create TOTP instance");
    assert_eq!(TotpError::Clock.message(), "System time error");
    assert!(TotpGen::new("1234567890123456").code_at(0).is_ok());
}

#[test]
fn storing_a_code() {
    let with_code = TotpStorage::new(9, Some("123456".to_string()), TwoFaType::Email).unwrap();
    assert_eq!(with_code.redis_key, "email:9");
    assert_eq!(with_code.totp, Some("123456".to_string()));
    assert_eq!(with_code.plan_store(None), StorePlan::Write("123456".to_string(), 600));
    assert_eq!(with_code.plan_store(Some(539)), StorePlan::Write("123456".to_string(), 600));
    assert_eq!(with_code.plan_store(Some(540)), StorePlan::Wait(0));
    assert_eq!(with_code.plan_store(Some(600)), StorePlan::Wait(60));
    assert_eq!(with_code.plan_store(Some(-5)), StorePlan::Write("123456".to_string(), 600));
    let without = TotpStorage::new(9, None, TwoFaType::Password).unwrap();
    assert_eq!(without.plan_store(None), StorePlan::NoCode);
    assert_eq!(without.plan_store(Some(599)), StorePlan::Wait(59));
}

#[test]
fn plans_that_refuse_say_why() {
    assert_eq!(
        StorePlan::Wait(17).refusal(),
        Some("please request a new verification code in 17".to_string())
    );
    assert_eq!(
        StorePlan::Wait(0).refusal(),
        Some("please request a new verification code in 0".to_string())
    );
    assert_eq!(
        StorePlan::NoCode.refusal(),
        Some("please provide a totp in TotpStorage::new(..., Some(totp), ...)".to_string())
    );
    assert_eq!(StorePlan::Write("123456".to_string(), 600).refusal(), None);
    assert_eq!(StorePlan::store_failure("timed out"), "failed to store totp: timed out");
}

#[test]
fn seconds_left() {
    assert_eq!(RedisClient::interpret_ttl(-2), None);
    assert_eq!(RedisClient::interpret_ttl(-1), None);
    assert_eq!(RedisClient::interpret_ttl(0), Some(0));
    assert_eq!(RedisClient::interpret_ttl(600), Some(600));
    assert_eq!(RedisClient::interpret_ttl(-3), Some(-3));
    assert!(RedisClient::new().is_ok());
    let request = TotpRequest::new(TwoFaType::Email, TotpRedisAction::Delete);
    assert_eq!(request.twofa_type(), TwoFaType::Email);
    assert_eq!(request.action(), TotpRedisAction::Delete);
}

#[test]
fn identifiers_are_packed() {
    assert_eq!(compose_uid(0, 0, 0), 0);
    assert_eq!(compose_uid(1, 1, 1), 4198401);
    assert_eq!(compose_uid(1, 0, 0), 1 << 22);
    assert_eq!(compose_uid(0, 1023, 4095), (1023 << 12) | 4095);
    assert_eq!(compose_uid(0, 1024, 0), 0);
    assert_eq!(compose_uid(1 << 42, 0, 0), 0);
    assert_eq!(compose_uid((1 << 41) - 1, 0, 0), i64::MAX - ((1 << 22) - 1));
    assert_eq!(compose_uid(1 << 41, 0, 0), i64::MIN);
    assert_eq!(millis_since_epoch(1_704_037_200_000), 0);
    assert_eq!(millis_since_epoch(1_704_037_200_123), 123);
    assert_eq!(millis_since_epoch(5), 0);
    assert_eq!(millis_since_epoch(1_704_037_200_000 + (1 << 42) + 9), 9);
}

#[test]
fn new_identifiers_carry_the_time() {
    let first = generate_uid();
    assert!(first > 0);
    let time = (first >> 22) as u128 + 1_704_037_200_000;
    let now = JwtToken::get_current_timestamp() as u128 * 1000;
    assert!(time <= now + 1000 && now <= time + 60_000);
}

#[test]
fn settings_from_a_document() {
    let text = "SECRET_KEY = \"k\"\nDB_PORT = \"5432\"\nOWNER = 5\nREPO = [\"a\", \"b\", 3, \"c\"]\n";
    let (secrets, missing) = Secrets::parse(text).unwrap();
    assert_eq!(secrets.secret_key, "k");
    assert_eq!(secrets.db_port, "5432");
    assert_eq!(secrets.owner, "");
    assert_eq!(secrets.db_name, "");
    assert_eq!(secrets.repo, "a,b,c");
    assert_eq!(
        missing,
        vec![
            "DB_NAME",
            "DB_PW",
            "NO_REPLY_EMAIL",
            "SMTP_USERNAME",
            "SMTP_PASSWORD",
            "SMTP_RELAY",
            "DB_WS_URL",
            "OWNER"
        ]
    );
}

#[test]
fn settings_from_an_empty_document() {
    let (secrets, missing) = Secrets::parse("").unwrap();
    assert_eq!(secrets.secret_key, "");
    assert_eq!(secrets.repo, "");
    assert_eq!(missing.len(), 11);
    assert_eq!(missing[0], "SECRET_KEY");
    assert_eq!(missing[10], "REPO");
}

#[test]
fn settings_from_what_is_no_document() {
    let error = Secrets::parse("SECRET_KEY = ").unwrap_err();
    assert!(error.starts_with("Failed to parse Secrets.toml: "));
    assert!(error.len() > "Failed to parse Secrets.toml: ".len());
}

#[test]
fn members_of_a_document() {
    let document: toml::Value =
        "SMTP_RELAY = \"smtp.example.org\"\nREPO = \"one\"\nLIST = []\n".parse().unwrap();
    assert_eq!(load_secret(&document, "SMTP_RELAY"), Some("smtp.example.org".to_string()));
    assert_eq!(load_secret(&document, "LIST"), None);
    assert_eq!(load_secret(&document, "NONE"), None);
    assert_eq!(load_repos(&document), None);
    let with_list: toml::Value = "REPO = []".parse().unwrap();
    assert_eq!(load_repos(&with_list), Some(String::new()));
    let (secrets, missing) = Secrets::from_document(&document);
    assert_eq!(secrets.smtp_relay, "smtp.example.org");
    assert!(missing.contains(&"REPO".to_string()));
    assert!(!missing.contains(&"SMTP_RELAY".to_string()));
}

#[test]
fn letters_take_the_account_of_the_settings() {
    let (secrets, _) = Secrets::parse(
        "SMTP_USERNAME = \"u\"\nSMTP_PASSWORD = \"p\"\nSMTP_RELAY = \"r\"\n",
    )
    .unwrap();
    let client = EmailClient::new("to@example.org", "Hello", &secrets).unwrap();
    assert_eq!(client.email, "to@example.org");
    assert_eq!(client.subject, "Hello");
    assert_eq!(client.creds.username, "u");
    assert_eq!(client.creds.password, "p");
    assert_eq!(client.creds.smtp_relay, "r");
}

#[test]
fn timers_count_up() {
    let timer = Timer::new();
    let first = timer.elapsed_as_micros();
    let mut spin = 0u64;
    for i in 0..200_000u64 {
        spin = spin.wrapping_add(i * i);
    }
    assert!(spin > 0);
    let second = timer.elapsed_as_micros();
    assert!(second >= first);
    assert!(timer.elapsed_as_millis() <= timer.elapsed_as_micros());
    assert!(timer.elapsed().as_secs() < 20);
}
