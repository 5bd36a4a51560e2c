//! What is known of a user.
use vstd::prelude::*;
use vstd::string::*;

verus! {

/// The SID of a user, its names and its folders.
#[derive(Debug)]
pub struct UserInfo {
    pub id: String,
    pub domain: String,
    pub name: String,
    pub home: String,
    pub app_data: String,
    pub local_app_data: String,
}

/// What is known of a user, as plain values.
pub struct UserInfoView {
    pub id: Seq<char>,
    pub domain: Seq<char>,
    pub name: Seq<char>,
    pub home: Seq<char>,
    pub app_data: Seq<char>,
    pub local_app_data: Seq<char>,
}

impl View for UserInfo {
    type V = UserInfoView;

    open spec fn view(&self) -> UserInfoView {
        UserInfoView {
            id: self.id@,
            domain: self.domain@,
            name: self.name@,
            home: self.home@,
            app_data: self.app_data@,
            local_app_data: self.local_app_data@,
        }
    }
}

impl Default for UserInfo {
    fn default() -> (r: Self)
        ensures
            r@ == (UserInfoView {
                id: Seq::<char>::empty(),
                domain: Seq::<char>::empty(),
                name: Seq::<char>::empty(),
                home: Seq::<char>::empty(),
                app_data: Seq::<char>::empty(),
                local_app_data: Seq::<char>::empty(),
            }),
    {
        UserInfo {
            id: String::new(),
            domain: String::new(),
            name: String::new(),
            home: String::new(),
            app_data: String::new(),
            local_app_data: String::new(),
        }
    }
}

impl Clone for UserInfo {
    fn clone(&self) -> (r: Self)
        ensures
            r@ == self@,
    {
        UserInfo {
            id: self.id.clone(),
            domain: self.domain.clone(),
            name: self.name.clone(),
            home: self.home.clone(),
            app_data: self.app_data.clone(),
            local_app_data: self.local_app_data.clone(),
        }
    }
}

} // verus!
