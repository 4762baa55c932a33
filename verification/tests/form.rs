//! Tests of the form-style text codec of the models.

use conduit_core::models::{
    Article, Comment, DateTime, LoginUser, NewArticle, Profile, UpdateUser, User,
};

fn profile() -> Profile {
    Profile {
        username: "bob".to_string(),
        bio: "hi".to_string(),
        image: "img".to_string(),
        following: true,
    }
}

#[test]
fn profile_form_encoding() {
    assert_eq!(profile().to_form_string(), "username,bob,bio,hi,image,img,following,true");
    let empty_bio = Profile { bio: String::new(), ..profile() };
    assert_eq!(
        empty_bio.to_form_string(),
        "username,bob,bio,,image,img,following,true"
    );
}

#[test]
fn scalar_models_round_trip() {
    let p = profile();
    assert_eq!(Profile::from_form_str(&p.to_form_string()), Ok(p));

    let u = LoginUser { email: "a@b.c".to_string(), password: "pw".to_string() };
    assert_eq!(LoginUser::from_form_str(&u.to_form_string()), Ok(u));

    let u = User {
        email: "a@b.c".to_string(),
        token: "tok".to_string(),
        username: "bob".to_string(),
        bio: String::new(),
        image: String::new(),
    };
    assert_eq!(User::from_form_str(&u.to_form_string()), Ok(u));

    let u = UpdateUser {
        email: Some("a@b.c".to_string()),
        password: None,
        username: Some("bob".to_string()),
        bio: None,
        image: None,
    };
    assert_eq!(u.to_form_string(), "email,a@b.c,username,bob");
    assert_eq!(UpdateUser::from_form_str(&u.to_form_string()), Ok(u));
}

#[test]
fn form_scan_errors() {
    assert_eq!(
        Profile::from_form_str("username").unwrap_err(),
        "Missing value while parsing Profile"
    );
    assert_eq!(
        Profile::from_form_str("bogus,1").unwrap_err(),
        "Unexpected key while parsing Profile"
    );
    assert_eq!(
        Profile::from_form_str("username,bob").unwrap_err(),
        "bio missing in Profile"
    );
    assert_eq!(
        Profile::from_form_str("username,bob,bio,b,image,i,following,maybe").unwrap_err(),
        "invalid value for following in Profile"
    );
    assert_eq!(
        Comment::from_form_str("id,abc").unwrap_err(),
        "invalid value for id in Comment"
    );
    assert_eq!(
        Article::from_form_str("tagList,x").unwrap_err(),
        "Parsing a container in this style is not supported in Article"
    );
}

#[test]
fn first_occurrence_of_a_key_counts() {
    let u = LoginUser::from_form_str("email,a,email,b,password,p").expect("scans");
    assert_eq!(u.email, "a");
}

#[test]
fn timestamps_scan_but_are_never_encoded() {
    // the encoding skips timestamp fields, so a comment does not round-trip
    let c = Comment {
        id: 7,
        created_at: DateTime { text: "2024-01-01T00:00:00Z".to_string() },
        updated_at: DateTime { text: "2024-01-01T00:00:00Z".to_string() },
        body: "hi".to_string(),
        author: profile(),
    };
    assert_eq!(c.to_form_string(), "id,7,body,hi");
    assert_eq!(
        Comment::from_form_str(&c.to_form_string()).unwrap_err(),
        "createdAt missing in Comment"
    );
    // with timestamps given, the scan still stops at the nested author
    let text = "id,7,createdAt,2024-01-01T00:00:00Z,updatedAt,2024-01-01T00:00:00Z,body,hi";
    assert_eq!(
        Comment::from_form_str(text).unwrap_err(),
        "author missing in Comment"
    );
    assert_eq!(
        Comment::from_form_str("id,7,createdAt,not-a-date").unwrap_err(),
        "invalid value for createdAt in Comment"
    );
}

#[test]
fn tag_list_encodes_joined_and_never_scans() {
    let a = NewArticle {
        title: "T".to_string(),
        description: "D".to_string(),
        body: "B".to_string(),
        tag_list: Some(vec!["x".to_string(), "y".to_string()]),
    };
    assert_eq!(a.to_form_string(), "title,T,description,D,body,B,tagList,x,y");
    let bare = NewArticle { tag_list: None, ..a };
    assert_eq!(bare.to_form_string(), "title,T,description,D,body,B");
    assert_eq!(NewArticle::from_form_str(&bare.to_form_string()), Ok(bare));
}
