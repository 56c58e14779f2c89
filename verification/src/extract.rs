use vstd::prelude::*;

use crate::accounts::{Account, Creds, User};
use crate::authority::{authority_of, Authority};
use crate::models::{service_type_of, FollowRequest, Frame, Page, Service, ServiceType, Topic, TopicInfo};
use crate::record::{NodeRecord, PathRecord};

verus! {

/// Builds the server's records from the nodes and paths of result rows.
pub struct Extractor {}

impl Extractor {
    /// The node holds what a topic's figures are read from.
    pub open spec fn info_ready(x: NodeRecord) -> bool {
        &&& x.integer("pages"@) is Some
        &&& x.integer("subs"@) is Some
        &&& x.text("time"@) is Some
        &&& x.text("desc"@) is Some
    }

    /// The node holds what a topic is read from.
    pub open spec fn topic_ready(x: NodeRecord) -> bool {
        &&& x.text("id"@) is Some
        &&& x.text("name"@) is Some
        &&& Self::info_ready(x)
    }

    /// The node holds what an entry's content is read from.
    pub open spec fn frame_ready(x: NodeRecord) -> bool {
        &&& x.text("title"@) is Some
        &&& x.text("body"@) is Some
    }

    /// The node holds what a published entry is read from.
    pub open spec fn page_ready(x: NodeRecord) -> bool {
        &&& x.text("id"@) is Some
        &&& x.text("time"@) is Some
        &&& x.text("by"@) is Some
        &&& Self::frame_ready(x)
    }

    /// The node holds what an account is read from.
    pub open spec fn account_ready(x: NodeRecord) -> bool {
        &&& x.text("id"@) is Some
        &&& x.text("username"@) is Some
        &&& x.text("password"@) is Some
        &&& x.text("disp_name"@) is Some
        &&& x.text("auth"@) is Some
    }

    /// The node holds what a user is read from.
    pub open spec fn user_ready(x: NodeRecord) -> bool {
        &&& x.text("username"@) is Some
        &&& x.text("disp_name"@) is Some
    }

    /// The path holds what a new service is read from.
    pub open spec fn service_ready(x: PathRecord) -> bool {
        &&& x.nodes@.len() > 0
        &&& x.rels@.len() > 0
        &&& x.nodes@[0].text("id"@) is Some
        &&& x.nodes@[0].text("topic"@) is Some
        &&& x.rels@[0].text("type"@) is Some
    }

    /// The path holds what a follow relation is read from.
    pub open spec fn follow_ready(x: PathRecord) -> bool {
        &&& x.rels@.len() > 0
        &&& x.rels@[0].text("sub_id"@) is Some
        &&& x.rels@[0].text("topic"@) is Some
    }

    /// The topic is the one the node describes.
    pub open spec fn is_topic_of(t: Topic, x: NodeRecord) -> bool {
        &&& Some(t.id@) == x.text("id"@)
        &&& Some(t.name@) == x.text("name"@)
        &&& Self::is_info_of(t.info, x)
    }

    /// The figures are the ones the node holds.
    pub open spec fn is_info_of(i: TopicInfo, x: NodeRecord) -> bool {
        &&& Some(i.pages) == x.integer("pages"@)
        &&& Some(i.subs) == x.integer("subs"@)
        &&& Some(i.time@) == x.text("time"@)
        &&& Some(i.desc@) == x.text("desc"@)
    }

    /// The content is the one the node holds.
    pub open spec fn is_frame_of(p: Page, x: NodeRecord) -> bool {
        &&& Some(p.title@) == x.text("title"@)
        &&& Some(p.body@) == x.text("body"@)
    }

    /// The entry is the one the node describes.
    pub open spec fn is_page_of(f: Frame, x: NodeRecord) -> bool {
        &&& Some(f.id@) == x.text("id"@)
        &&& Some(f.time@) == x.text("time"@)
        &&& Some(f.by@) == x.text("by"@)
        &&& Self::is_frame_of(f.body, x)
    }

    /// The account is the one the node describes; its authority is read from its text.
    pub open spec fn is_account_of(a: Account, x: NodeRecord) -> bool {
        &&& Some(a.obj@) == x.text("id"@)
        &&& Some(a.creds.username@) == x.text("username"@)
        &&& Some(a.creds.password@) == x.text("password"@)
        &&& Some(a.creds.disp_name@) == x.text("disp_name"@)
        &&& a.creds.auth == authority_of(x.text("auth"@).unwrap())
    }

    /// The user is the one the node describes.
    pub open spec fn is_user_of(u: User, x: NodeRecord) -> bool {
        &&& Some(u.username@) == x.text("username"@)
        &&& Some(u.disp_name@) == x.text("disp_name"@)
    }

    /// A topic read from its node.
    pub fn topic(x: &NodeRecord) -> (r: Topic)
        requires
            Self::topic_ready(*x),
        ensures
            Self::is_topic_of(r, *x),
    {
        Topic { id: x.text_at("id"), info: Self::info(x), name: x.text_at("name") }
    }

    /// A topic's figures read from its node.
    pub fn info(x: &NodeRecord) -> (r: TopicInfo)
        requires
            Self::info_ready(*x),
        ensures
            Self::is_info_of(r, *x),
    {
        TopicInfo {
            pages: x.integer_at("pages"),
            subs: x.integer_at("subs"),
            time: x.text_at("time"),
            desc: x.text_at("desc"),
        }
    }

    /// A published entry read from its node.
    pub fn page(x: &NodeRecord) -> (r: Frame)
        requires
            Self::page_ready(*x),
        ensures
            Self::is_page_of(r, *x),
    {
        Frame {
            id: x.text_at("id"),
            body: Self::frame(x),
            time: x.text_at("time"),
            by: x.text_at("by"),
        }
    }

    /// An entry's content read from its node.
    pub fn frame(x: &NodeRecord) -> (r: Page)
        requires
            Self::frame_ready(*x),
        ensures
            Self::is_frame_of(r, *x),
    {
        Page { title: x.text_at("title"), body: x.text_at("body") }
    }

    /// An account read from its node.
    pub fn account(x: &NodeRecord) -> (r: Account)
        requires
            Self::account_ready(*x),
        ensures
            Self::is_account_of(r, *x),
    {
        let auth = x.text_at("auth");
        Account {
            obj: x.text_at("id"),
            creds: Creds {
                username: x.text_at("username"),
                password: x.text_at("password"),
                disp_name: x.text_at("disp_name"),
                auth: Authority::parse(auth.as_str()),
            },
        }
    }

    /// A user read from their node.
    pub fn user(x: &NodeRecord) -> (r: User)
        requires
            Self::user_ready(*x),
        ensures
            Self::is_user_of(r, *x),
    {
        User { username: x.text_at("username"), disp_name: x.text_at("disp_name") }
    }

    /// A new service read from the path that created it: id and topic from
    /// its first node, kind from the type of its first relationship.
    pub fn service(x: &PathRecord) -> (r: Service)
        requires
            Self::service_ready(*x),
        ensures
            Some(r.id@) == x.nodes@[0].text("id"@),
            Some(r.topic@) == x.nodes@[0].text("topic"@),
            r.typ == service_type_of(x.rels@[0].text("type"@).unwrap()),
    {
        let node = &x.nodes[0];
        let typ = x.rels[0].text_at("type");
        Service {
            id: node.text_at("id"),
            typ: ServiceType::parse(typ.as_str()),
            topic: node.text_at("topic"),
        }
    }

    /// A follow relation read from the path that created it, for the given user.
    pub fn follow_request(x: &PathRecord, me: String) -> (r: FollowRequest)
        requires
            Self::follow_ready(*x),
        ensures
            Some(r.id@) == x.rels@[0].text("sub_id"@),
            Some(r.topic@) == x.rels@[0].text("topic"@),
            r.user@ == me@,
    {
        let rel = &x.rels[0];
        FollowRequest { id: rel.text_at("sub_id"), user: me, topic: rel.text_at("topic") }
    }
    /// A topic read from its node; `None` where the node lacks a field.
    pub fn try_topic(x: &NodeRecord) -> (r: Option<Topic>)
        ensures
            r is None <==> !Self::topic_ready(*x),
            r matches Some(t) ==> Self::is_topic_of(t, *x),
    {
        if x.get_text("id").is_some() && x.get_text("name").is_some() && x.get_integer(
            "pages",
        ).is_some() && x.get_integer("subs").is_some() && x.get_text("time").is_some()
            && x.get_text("desc").is_some() {
            Some(Self::topic(x))
        } else {
            None
        }
    }

    /// A published entry read from its node; `None` where the node lacks a field.
    pub fn try_page(x: &NodeRecord) -> (r: Option<Frame>)
        ensures
            r is None <==> !Self::page_ready(*x),
            r matches Some(f) ==> Self::is_page_of(f, *x),
    {
        if x.get_text("id").is_some() && x.get_text("time").is_some() && x.get_text(
            "by",
        ).is_some() && x.get_text("title").is_some() && x.get_text("body").is_some() {
            Some(Self::page(x))
        } else {
            None
        }
    }

    /// An account read from its node; `None` where the node lacks a field.
    pub fn try_account(x: &NodeRecord) -> (r: Option<Account>)
        ensures
            r is None <==> !Self::account_ready(*x),
            r matches Some(a) ==> Self::is_account_of(a, *x),
    {
        if x.get_text("id").is_some() && x.get_text("username").is_some() && x.get_text(
            "password",
        ).is_some() && x.get_text("disp_name").is_some() && x.get_text("auth").is_some() {
            Some(Self::account(x))
        } else {
            None
        }
    }

    /// A user read from their node; `None` where the node lacks a field.
    pub fn try_user(x: &NodeRecord) -> (r: Option<User>)
        ensures
            r is None <==> !Self::user_ready(*x),
            r matches Some(u) ==> Self::is_user_of(u, *x),
    {
        if x.get_text("username").is_some() && x.get_text("disp_name").is_some() {
            Some(Self::user(x))
        } else {
            None
        }
    }

    /// A new service read from its path; `None` where the path lacks a part.
    pub fn try_service(x: &PathRecord) -> (r: Option<Service>)
        ensures
            r is None <==> !Self::service_ready(*x),
            r matches Some(s) ==> Some(s.id@) == x.nodes@[0].text("id"@) && Some(s.topic@)
                == x.nodes@[0].text("topic"@) && s.typ == service_type_of(
                x.rels@[0].text("type"@).unwrap(),
            ),
    {
        if x.nodes.len() > 0 && x.rels.len() > 0 && x.nodes[0].get_text("id").is_some()
            && x.nodes[0].get_text("topic").is_some() && x.rels[0].get_text("type").is_some() {
            Some(Self::service(x))
        } else {
            None
        }
    }

    /// A follow relation read from its path; `None` where the path lacks a part.
    pub fn try_follow_request(x: &PathRecord, me: String) -> (r: Option<FollowRequest>)
        ensures
            r is None <==> !Self::follow_ready(*x),
            r matches Some(f) ==> Some(f.id@) == x.rels@[0].text("sub_id"@) && Some(f.topic@)
                == x.rels@[0].text("topic"@) && f.user@ == me@,
    {
        if x.rels.len() > 0 && x.rels[0].get_text("sub_id").is_some() && x.rels[0].get_text(
            "topic",
        ).is_some() {
            Some(Self::follow_request(x, me))
        } else {
            None
        }
    }
}

} // verus!
