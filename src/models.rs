//! The records that the handlers read from and write to the store, and the
//! rules for filling in what a request leaves out.

use vstd::prelude::*;

verus! {

/// The text of an optional string field.
pub open spec fn opt_view(o: Option<String>) -> Option<Seq<char>> {
    match o {
        Some(s) => Some(s@),
        None => None,
    }
}

/// A field agent's account as stored.
#[derive(Debug, Clone)]
pub struct Agent {
    pub id: i64,
    pub agent_number: String,
    pub password_hash: String,
    pub is_active: bool,
    pub created_at: String,
    pub updated_at: String,
}

/// The body of a login request.
#[derive(Debug, Clone)]
pub struct AgentLogin {
    pub agent_number: String,
    pub password: String,
}

/// The body of a registration request.
#[derive(Debug, Clone)]
pub struct AgentCreate {
    pub agent_number: String,
    pub password: String,
    pub is_active: Option<bool>,
}

/// The public summary of an agent: no password hash, no timestamps.
#[derive(Debug, Clone)]
pub struct AgentInfo {
    pub id: i64,
    pub agent_number: String,
    pub is_active: bool,
}

/// What a successful login returns.
#[derive(Debug, Clone)]
pub struct AuthResponse {
    pub token: String,
    pub agent: AgentInfo,
}

/// A content record attached to a page.
#[derive(Debug, Clone)]
pub struct Content {
    pub id: i64,
    pub ref_id: i64,
    pub short_desc: Option<String>,
    pub long_desc: Option<String>,
    pub image_path: Option<String>,
    pub title: Option<String>,
    pub created_at: String,
    pub updated_at: String,
}

/// The body of a request that creates content.
#[derive(Debug, Clone)]
pub struct ContentCreate {
    pub ref_id: i64,
    pub short_desc: Option<String>,
    pub long_desc: Option<String>,
    pub image_path: Option<String>,
    pub title: Option<String>,
}

/// The body of a request that changes content; absent fields stay as they are.
#[derive(Debug, Clone)]
pub struct ContentUpdate {
    pub ref_id: Option<i64>,
    pub short_desc: Option<String>,
    pub long_desc: Option<String>,
    pub image_path: Option<String>,
    pub title: Option<String>,
}

/// A page of the site.
#[derive(Debug, Clone)]
pub struct Page {
    pub id: i64,
    pub page_name: String,
    pub section_name: String,
    pub lang: String,
    pub content_type: String,
    pub visible: bool,
    pub display_order: i32,
    pub attributes: Option<String>,
    pub created_at: String,
    pub updated_at: String,
}

/// The body of a request that creates a page.
#[derive(Debug, Clone)]
pub struct PageCreate {
    pub page_name: String,
    pub section_name: String,
    pub lang: String,
    pub content_type: String,
    pub visible: Option<bool>,
    pub display_order: Option<i32>,
    pub attributes: Option<String>,
}

/// The body of a request that changes a page; absent fields stay as they are.
#[derive(Debug, Clone)]
pub struct PageUpdate {
    pub page_name: Option<String>,
    pub section_name: Option<String>,
    pub lang: Option<String>,
    pub content_type: Option<String>,
    pub visible: Option<bool>,
    pub display_order: Option<i32>,
    pub attributes: Option<String>,
}

/// The given text if there is one, else the current one.
pub open spec fn text_or(given: Option<String>, current: String) -> Seq<char> {
    match given {
        Some(s) => s@,
        None => current@,
    }
}

/// The given optional text if there is one, else the current one.
pub open spec fn opt_text_or(given: Option<String>, current: Option<String>) -> Option<Seq<char>> {
    match given {
        Some(s) => Some(s@),
        None => opt_view(current),
    }
}

fn string_or(given: &Option<String>, current: &String) -> (r: String)
    ensures
        r@ == text_or(*given, *current),
{
    match given {
        Some(s) => s.clone(),
        None => current.clone(),
    }
}

fn opt_string_or(given: &Option<String>, current: &Option<String>) -> (r: Option<String>)
    ensures
        opt_view(r) == opt_text_or(*given, *current),
{
    match given {
        Some(s) => Some(s.clone()),
        None => match current {
            Some(s) => Some(s.clone()),
            None => None,
        },
    }
}

impl AgentInfo {
    /// The public summary of an agent.
    pub fn from_agent(agent: &Agent) -> (r: AgentInfo)
        ensures
            r.id == agent.id,
            r.agent_number@ == agent.agent_number@,
            r.is_active == agent.is_active,
    {
        AgentInfo { id: agent.id, agent_number: agent.agent_number.clone(), is_active: agent.is_active }
    }
}

impl AgentCreate {
    /// A new account is active unless the request says otherwise.
    pub fn active_or_default(&self) -> (r: bool)
        ensures
            r == match self.is_active {
                Some(b) => b,
                None => true,
            },
    {
        match self.is_active {
            Some(b) => b,
            None => true,
        }
    }
}

impl PageCreate {
    /// A new page is visible unless the request says otherwise.
    pub fn visible_or_default(&self) -> (r: bool)
        ensures
            r == match self.visible {
                Some(b) => b,
                None => true,
            },
    {
        match self.visible {
            Some(b) => b,
            None => true,
        }
    }

    /// A new page is ordered at 0 unless the request says otherwise.
    pub fn display_order_or_default(&self) -> (r: i32)
        ensures
            r == match self.display_order {
                Some(n) => n,
                None => 0i32,
            },
    {
        match self.display_order {
            Some(n) => n,
            None => 0,
        }
    }
}

impl Page {
    /// The page after the update: each field the update gives replaces the
    /// current one; identifier and timestamps stay.
    pub fn with_update(&self, update: &PageUpdate) -> (r: Page)
        ensures
            r.id == self.id,
            r.page_name@ == text_or(update.page_name, self.page_name),
            r.section_name@ == text_or(update.section_name, self.section_name),
            r.lang@ == text_or(update.lang, self.lang),
            r.content_type@ == text_or(update.content_type, self.content_type),
            r.visible == match update.visible {
                Some(b) => b,
                None => self.visible,
            },
            r.display_order == match update.display_order {
                Some(n) => n,
                None => self.display_order,
            },
            opt_view(r.attributes) == opt_text_or(update.attributes, self.attributes),
            r.created_at@ == self.created_at@,
            r.updated_at@ == self.updated_at@,
    {
        Page {
            id: self.id,
            page_name: string_or(&update.page_name, &self.page_name),
            section_name: string_or(&update.section_name, &self.section_name),
            lang: string_or(&update.lang, &self.lang),
            content_type: string_or(&update.content_type, &self.content_type),
            visible: match update.visible {
                Some(b) => b,
                None => self.visible,
            },
            display_order: match update.display_order {
                Some(n) => n,
                None => self.display_order,
            },
            attributes: opt_string_or(&update.attributes, &self.attributes),
            created_at: self.created_at.clone(),
            updated_at: self.updated_at.clone(),
        }
    }
}

impl Content {
    /// The content after the update: each field the update gives replaces
    /// the current one; identifier and timestamps stay.
    pub fn with_update(&self, update: &ContentUpdate) -> (r: Content)
        ensures
            r.id == self.id,
            r.ref_id == match update.ref_id {
                Some(n) => n,
                None => self.ref_id,
            },
            opt_view(r.short_desc) == opt_text_or(update.short_desc, self.short_desc),
            opt_view(r.long_desc) == opt_text_or(update.long_desc, self.long_desc),
            opt_view(r.image_path) == opt_text_or(update.image_path, self.image_path),
            opt_view(r.title) == opt_text_or(update.title, self.title),
            r.created_at@ == self.created_at@,
            r.updated_at@ == self.updated_at@,
    {
        Content {
            id: self.id,
            ref_id: match update.ref_id {
                Some(n) => n,
                None => self.ref_id,
            },
            short_desc: opt_string_or(&update.short_desc, &self.short_desc),
            long_desc: opt_string_or(&update.long_desc, &self.long_desc),
            image_path: opt_string_or(&update.image_path, &self.image_path),
            title: opt_string_or(&update.title, &self.title),
            created_at: self.created_at.clone(),
            updated_at: self.updated_at.clone(),
        }
    }

    /// The stored image that the update replaces: the current image, where
    /// the update names a different one.
    pub fn replaced_image(&self, update: &ContentUpdate) -> (r: Option<String>)
        ensures
            opt_view(r) == match (update.image_path, self.image_path) {
                (Some(new), Some(old)) => if old@ != new@ {
                    Some(old@)
                } else {
                    None
                },
                _ => None,
            },
    {
        match (&update.image_path, &self.image_path) {
            (Some(new), Some(old)) => {
                if old.eq(new) {
                    None
                } else {
                    Some(old.clone())
                }
            },
            _ => None,
        }
    }
}

} // verus!
