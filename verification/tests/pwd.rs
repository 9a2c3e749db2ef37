use ftp_controlchan::auth::{DefaultUser, UserWithCreds};
use ftp_controlchan::server::controlchan::commands::{Pwd, PwdHandler};
use ftp_controlchan::server::controlchan::control_loop::{dispatch, Outcome};
use ftp_controlchan::server::controlchan::{CommandContext, CommandHandler, ReplyCode};
use ftp_controlchan::server::Session;

struct NoStorage;

#[test]
fn session_starts_in_the_given_directory() {
    assert_eq!(Session::new(String::from("/srv/ftp")).cwd, "/srv/ftp");
    assert_eq!(Session::new(String::from("/no/such/place")).cwd, "/no/such/place");
}

#[test]
fn pwd_names_the_working_directory_in_quotes() {
    let session = Session::new(String::from("/home/alice"));
    let args = CommandContext { session: &session, storage: &NoStorage, user: &DefaultUser };
    let reply = PwdHandler.handle(Box::new(Pwd), args).unwrap();
    assert_eq!(reply.code, ReplyCode::DirCreated);
    assert_eq!(reply.code.number(), 257);
    assert_eq!(reply.msg, "\"/home/alice\"");
    assert_eq!(reply.encode(), "257 \"/home/alice\"\r\n");
}

#[test]
fn pwd_of_the_root() {
    let session = Session::new(String::from("/"));
    let args = CommandContext { session: &session, storage: &NoStorage, user: &DefaultUser };
    let reply = PwdHandler.handle(Box::new(Pwd), args).unwrap();
    assert_eq!(reply.msg, "\"/\"");
}

#[test]
fn pwd_doubles_a_quote_in_the_directory() {
    let session = Session::new(String::from("/a\"b"));
    let args = CommandContext { session: &session, storage: &NoStorage, user: &DefaultUser };
    let reply = PwdHandler.handle(Box::new(Pwd), args).unwrap();
    assert_eq!(reply.code, ReplyCode::DirCreated);
    assert_eq!(reply.msg, "\"/a\"\"b\"");
}

#[test]
fn pwd_leaves_the_session_as_it_was() {
    let session = Session::new(String::from("/a\"b"));
    let args = CommandContext { session: &session, storage: &NoStorage, user: &DefaultUser };
    let first = PwdHandler.handle(Box::new(Pwd), args).unwrap();
    assert_eq!(session.cwd, "/a\"b");
    let args = CommandContext { session: &session, storage: &NoStorage, user: &DefaultUser };
    let second = PwdHandler.handle(Box::new(Pwd), args).unwrap();
    assert_eq!(first.msg, second.msg);
}

#[test]
fn pwd_is_the_same_for_any_user_and_storage() {
    let session = Session::new(String::from("/pub"));
    let user = UserWithCreds { password: Some(String::from("pw")), username: Some(String::from("bob")) };
    let storage: Vec<u8> = vec![1, 2, 3];
    let args = CommandContext { session: &session, storage: &storage, user: &user };
    let reply = PwdHandler.handle(Box::new(Pwd), args).unwrap();
    assert_eq!(reply.code, ReplyCode::DirCreated);
    assert_eq!(reply.msg, "\"/pub\"");
}

#[test]
fn dispatch_of_pwd_sends_the_reply() {
    let session = Session::new(String::from("/x\"y"));
    let args = CommandContext { session: &session, storage: &NoStorage, user: &DefaultUser };
    match dispatch(&PwdHandler, Box::new(Pwd), args) {
        Outcome::Send(reply) => {
            assert_eq!(reply.code, ReplyCode::DirCreated);
            assert_eq!(reply.encode(), "257 \"/x\"\"y\"\r\n");
        }
        Outcome::Close => panic!("the connection stays open"),
    }
}
