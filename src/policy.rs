use vstd::prelude::*;

verus! {

/// Whether `a` and `b` hold the same characters.
pub fn str_eq(a: &str, b: &str) -> (r: bool)
    ensures
        r == (a@ == b@),
{
    let n = a.unicode_len();
    if n != b.unicode_len() {
        return false;
    }
    let mut i: usize = 0;
    while i < n
        invariant
            n == a@.len(),
            n == b@.len(),
            i <= n,
            a@.subrange(0, i as int) == b@.subrange(0, i as int),
        decreases n - i,
    {
        if a.get_char(i) != b.get_char(i) {
            return false;
        }
        i = i + 1;
        assert(a@.subrange(0, i as int) =~= a@.subrange(0, i as int - 1).push(a@[i as int - 1]));
        assert(b@.subrange(0, i as int) =~= b@.subrange(0, i as int - 1).push(b@[i as int - 1]));
    }
    assert(a@ =~= a@.subrange(0, n as int));
    assert(b@ =~= b@.subrange(0, n as int));
    true
}

/// The level at which a role or permission applies.
pub enum ScopeLevel {
    Instance,
    Namespace,
    Project,
}

/// The name of a scope level.
pub open spec fn scope_level_name(s: ScopeLevel) -> Seq<char> {
    match s {
        ScopeLevel::Instance => "instance"@,
        ScopeLevel::Namespace => "namespace"@,
        ScopeLevel::Project => "project"@,
    }
}

impl ScopeLevel {
    /// The scope level's name.
    pub fn to_string(&self) -> (r: String)
        ensures
            r@ == scope_level_name(*self),
    {
        match self {
            ScopeLevel::Instance => String::from_str("instance"),
            ScopeLevel::Namespace => String::from_str("namespace"),
            ScopeLevel::Project => String::from_str("project"),
        }
    }
}

/// What a policy rule does with the resources it names.
#[derive(Debug, Clone, Copy, PartialEq, Eq, Structural)]
pub enum PolicyRuleTargetAction {
    Allow,
    Deny,
    FallThrough,
}

/// The stored code of a rule action.
pub open spec fn action_code(a: PolicyRuleTargetAction) -> i32 {
    match a {
        PolicyRuleTargetAction::Allow => 1,
        PolicyRuleTargetAction::Deny => 0,
        PolicyRuleTargetAction::FallThrough => 3,
    }
}

/// The rule action a stored code stands for; unknown codes deny.
pub open spec fn action_of_code(code: i32) -> PolicyRuleTargetAction {
    if code == 1 {
        PolicyRuleTargetAction::Allow
    } else if code == 3 {
        PolicyRuleTargetAction::FallThrough
    } else {
        PolicyRuleTargetAction::Deny
    }
}

impl From<PolicyRuleTargetAction> for i32 {
    fn from(a: PolicyRuleTargetAction) -> (r: i32) {
        match a {
            PolicyRuleTargetAction::Allow => 1,
            PolicyRuleTargetAction::Deny => 0,
            PolicyRuleTargetAction::FallThrough => 3,
        }
    }
}

impl vstd::std_specs::convert::FromSpecImpl<PolicyRuleTargetAction> for i32 {
    open spec fn obeys_from_spec() -> bool {
        true
    }

    open spec fn from_spec(a: PolicyRuleTargetAction) -> i32 {
        action_code(a)
    }
}

impl From<i32> for PolicyRuleTargetAction {
    fn from(code: i32) -> (r: PolicyRuleTargetAction) {
        if code == 1 {
            PolicyRuleTargetAction::Allow
        } else if code == 3 {
            PolicyRuleTargetAction::FallThrough
        } else {
            PolicyRuleTargetAction::Deny
        }
    }
}

impl vstd::std_specs::convert::FromSpecImpl<i32> for PolicyRuleTargetAction {
    open spec fn obeys_from_spec() -> bool {
        true
    }

    open spec fn from_spec(code: i32) -> PolicyRuleTargetAction {
        action_of_code(code)
    }
}

impl PolicyRuleTargetAction {
    /// Reads a rule action from its written form: `allow` and `+` allow,
    /// anything else denies.
    pub fn try_from(value: &str) -> (r: Result<PolicyRuleTargetAction, String>)
        ensures
            r matches Ok(a) && (if value@ == "allow"@ || value@ == "+"@ {
                a == PolicyRuleTargetAction::Allow
            } else {
                a == PolicyRuleTargetAction::Deny
            }),
    {
        if str_eq(value, "allow") || str_eq(value, "+") {
            Ok(PolicyRuleTargetAction::Allow)
        } else {
            Ok(PolicyRuleTargetAction::Deny)
        }
    }
}

/// The kinds of resource that policies speak of.
#[derive(Debug, Clone, Copy, PartialEq, Eq, Structural)]
pub enum ResourceTypes {
    Instance,
    Namespace,
    Project,
    Person,
    Permission,
    Role,
    Secret,
}

/// The four-letter tag of a resource type.
pub open spec fn resource_type_tag(t: ResourceTypes) -> Seq<char> {
    match t {
        ResourceTypes::Instance => "inst"@,
        ResourceTypes::Namespace => "nmsp"@,
        ResourceTypes::Project => "proj"@,
        ResourceTypes::Person => "prsn"@,
        ResourceTypes::Permission => "perm"@,
        ResourceTypes::Role => "role"@,
        ResourceTypes::Secret => "scrt"@,
    }
}

/// Whether `s` is the tag of some resource type.
pub open spec fn is_resource_type_tag(s: Seq<char>) -> bool {
    exists|t: ResourceTypes| resource_type_tag(t) == s
}

impl ResourceTypes {
    /// The resource type's tag.
    pub fn to_string(&self) -> (r: String)
        ensures
            r@ == resource_type_tag(*self),
    {
        match self {
            ResourceTypes::Instance => String::from_str("inst"),
            ResourceTypes::Namespace => String::from_str("nmsp"),
            ResourceTypes::Project => String::from_str("proj"),
            ResourceTypes::Person => String::from_str("prsn"),
            ResourceTypes::Permission => String::from_str("perm"),
            ResourceTypes::Role => String::from_str("role"),
            ResourceTypes::Secret => String::from_str("scrt"),
        }
    }

    /// The resource type whose tag is `value`.
    pub fn try_from(value: &str) -> (r: Result<ResourceTypes, String>)
        ensures
            r matches Ok(t) ==> resource_type_tag(t) == value@,
            r is Err <==> !is_resource_type_tag(value@),
    {
        let r = if str_eq(value, "inst") {
            Ok(ResourceTypes::Instance)
        } else if str_eq(value, "nmsp") {
            Ok(ResourceTypes::Namespace)
        } else if str_eq(value, "proj") {
            Ok(ResourceTypes::Project)
        } else if str_eq(value, "prsn") {
            Ok(ResourceTypes::Person)
        } else if str_eq(value, "perm") {
            Ok(ResourceTypes::Permission)
        } else if str_eq(value, "role") {
            Ok(ResourceTypes::Role)
        } else if str_eq(value, "scrt") {
            Ok(ResourceTypes::Secret)
        } else {
            assert forall|t: ResourceTypes| resource_type_tag(t) != value@ by {
                match t {
                    ResourceTypes::Instance => {},
                    ResourceTypes::Namespace => {},
                    ResourceTypes::Project => {},
                    ResourceTypes::Person => {},
                    ResourceTypes::Permission => {},
                    ResourceTypes::Role => {},
                    ResourceTypes::Secret => {},
                }
            }
            Err(String::from_str("Not found."))
        };
        proof {
            if let Ok(t) = r {
                assert(resource_type_tag(t) == value@);
            }
        }
        r
    }
}

/// The actions a permission can grant.
#[derive(Debug, Clone, Copy, PartialEq, Eq, Structural, Hash)]
pub enum AccessAction {
    CreateSecret,
    DeleteSecret,
    UpdateSecret,
    CreateProject,
    DeleteProject,
    UpdateProject,
    CreateNameSpace,
    DeleteNameSpace,
    UpdateNameSpace,
    ManageInstanceUsers,
}

/// The written name of an access action.
pub open spec fn access_action_name(a: AccessAction) -> Seq<char> {
    match a {
        AccessAction::CreateSecret => "create:secret"@,
        AccessAction::DeleteSecret => "delete:secret"@,
        AccessAction::UpdateSecret => "update:secret"@,
        AccessAction::CreateProject => "create:project"@,
        AccessAction::DeleteProject => "delete:project"@,
        AccessAction::UpdateProject => "update:project"@,
        AccessAction::CreateNameSpace => "create:namespace"@,
        AccessAction::DeleteNameSpace => "delete:namespace"@,
        AccessAction::UpdateNameSpace => "update:namespace"@,
        AccessAction::ManageInstanceUsers => "manage:instance:users"@,
    }
}

/// Whether `s` is the name of some access action.
pub open spec fn is_access_action_name(s: Seq<char>) -> bool {
    exists|a: AccessAction| access_action_name(a) == s
}

impl AccessAction {
    /// The access action's written name.
    pub fn to_string(&self) -> (r: String)
        ensures
            r@ == access_action_name(*self),
    {
        match self {
            AccessAction::CreateSecret => String::from_str("create:secret"),
            AccessAction::DeleteSecret => String::from_str("delete:secret"),
            AccessAction::UpdateSecret => String::from_str("update:secret"),
            AccessAction::CreateProject => String::from_str("create:project"),
            AccessAction::DeleteProject => String::from_str("delete:project"),
            AccessAction::UpdateProject => String::from_str("update:project"),
            AccessAction::CreateNameSpace => String::from_str("create:namespace"),
            AccessAction::DeleteNameSpace => String::from_str("delete:namespace"),
            AccessAction::UpdateNameSpace => String::from_str("update:namespace"),
            AccessAction::ManageInstanceUsers => String::from_str("manage:instance:users"),
        }
    }

    /// The access action whose written name is `value`.
    pub fn try_from(value: String) -> (r: Result<AccessAction, String>)
        ensures
            r matches Ok(a) ==> access_action_name(a) == value@,
            r is Err <==> !is_access_action_name(value@),
    {
        let v = value.as_str();
        let r = if str_eq(v, "create:secret") {
            Ok(AccessAction::CreateSecret)
        } else if str_eq(v, "delete:secret") {
            Ok(AccessAction::DeleteSecret)
        } else if str_eq(v, "update:secret") {
            Ok(AccessAction::UpdateSecret)
        } else if str_eq(v, "create:project") {
            Ok(AccessAction::CreateProject)
        } else if str_eq(v, "delete:project") {
            Ok(AccessAction::DeleteProject)
        } else if str_eq(v, "update:project") {
            Ok(AccessAction::UpdateProject)
        } else if str_eq(v, "create:namespace") {
            Ok(AccessAction::CreateNameSpace)
        } else if str_eq(v, "delete:namespace") {
            Ok(AccessAction::DeleteNameSpace)
        } else if str_eq(v, "update:namespace") {
            Ok(AccessAction::UpdateNameSpace)
        } else if str_eq(v, "manage:instance:users") {
            Ok(AccessAction::ManageInstanceUsers)
        } else {
            assert forall|a: AccessAction| access_action_name(a) != value@ by {
                match a {
                    AccessAction::CreateSecret => {},
                    AccessAction::DeleteSecret => {},
                    AccessAction::UpdateSecret => {},
                    AccessAction::CreateProject => {},
                    AccessAction::DeleteProject => {},
                    AccessAction::UpdateProject => {},
                    AccessAction::CreateNameSpace => {},
                    AccessAction::DeleteNameSpace => {},
                    AccessAction::UpdateNameSpace => {},
                    AccessAction::ManageInstanceUsers => {},
                }
            }
            Err(String::from_str("Unknown action"))
        };
        proof {
            if let Ok(a) = r {
                assert(access_action_name(a) == value@);
            }
        }
        r
    }
}

/// `i` is the position of the first `:` in `s`.
pub open spec fn is_first_colon(s: Seq<char>, i: int) -> bool {
    0 <= i < s.len() && s[i] == ':' && forall|j: int| 0 <= j < i ==> s[j] != ':'
}

/// `s` holds no `:`.
pub open spec fn has_no_colon(s: Seq<char>) -> bool {
    forall|j: int| 0 <= j < s.len() ==> s[j] != ':'
}

/// The part of a resource reference before its first `:` (all of it when
/// there is none) is a resource type's tag.
pub open spec fn has_resource_type_head(s: Seq<char>) -> bool {
    &&& has_no_colon(s) ==> is_resource_type_tag(s)
    &&& forall|i: int| is_first_colon(s, i) ==> is_resource_type_tag(#[trigger] s.subrange(0, i))
}

/// Splits a resource reference `<type>:<identifier>` at its first `:`. The
/// identifier may itself hold `:`; with no `:` at all it is empty.
pub fn split(res: String) -> (r: (String, ResourceTypes))
    requires
        has_resource_type_head(res@),
    ensures
        (exists|i: int|
            is_first_colon(res@, i) && r.0@ == res@.subrange(i + 1, res@.len() as int)
                && resource_type_tag(r.1) == #[trigger] res@.subrange(0, i)) || (has_no_colon(res@)
            && r.0@ == Seq::<char>::empty() && resource_type_tag(r.1) == res@),
{
    let s = res.as_str();
    let n = s.unicode_len();
    let mut i: usize = 0;
    while i < n
        invariant
            n == s@.len(),
            s@ == res@,
            has_resource_type_head(res@),
            i <= n,
            forall|j: int| 0 <= j < i ==> s@[j] != ':',
        decreases n - i,
    {
        if s.get_char(i) == ':' {
            let head = s.substring_char(0, i);
            let latter = s.substring_char(i + 1, n);
            assert(is_first_colon(res@, i as int));
            assert(head@ == res@.subrange(0, i as int));
            assert(is_resource_type_tag(res@.subrange(0, i as int)));
            let t = match ResourceTypes::try_from(head) {
                Ok(t) => t,
                Err(_) => ResourceTypes::Instance,
            };
            assert(resource_type_tag(t) == res@.subrange(0, i as int));
            return (String::from_str(latter), t);
        }
        i = i + 1;
    }
    assert(has_no_colon(res@));
    let t = match ResourceTypes::try_from(s) {
        Ok(t) => t,
        Err(_) => ResourceTypes::Instance,
    };
    (String::new(), t)
}

/// A rule attached to a namespace or project: the resource it names, the
/// type of that resource, and whether it allows or denies.
pub struct PolicyRule {
    pub resource: String,
    pub resource_type: ResourceTypes,
    pub action: PolicyRuleTargetAction,
}

/// Whether `rule` names the person `person` or one of the roles `roles`.
pub open spec fn rule_applies(rule: PolicyRule, person: Seq<char>, roles: Seq<Seq<char>>) -> bool {
    match rule.resource_type {
        ResourceTypes::Person => rule.resource@ == person,
        ResourceTypes::Role => roles.contains(rule.resource@),
        _ => false,
    }
}

/// The access decision over `rules`, taken in order: a deny rule that does
/// not apply to the person refuses; an allow rule that applies grants
/// exactly when every required action is among the present ones; any other
/// rule passes to the next. With no deciding rule, access is refused.
pub open spec fn access_decision(
    rules: Seq<PolicyRule>,
    person: Seq<char>,
    roles: Seq<Seq<char>>,
    required: Set<AccessAction>,
    present: Set<AccessAction>,
) -> bool
    decreases rules.len(),
{
    if rules.len() == 0 {
        false
    } else {
        let rule = rules[0];
        let applies = rule_applies(rule, person, roles);
        if rule.action == PolicyRuleTargetAction::Deny && !applies {
            false
        } else if rule.action == PolicyRuleTargetAction::Allow && applies {
            required.subset_of(present)
        } else {
            access_decision(rules.drop_first(), person, roles, required, present)
        }
    }
}

/// The characters of each string.
pub open spec fn string_views(v: Seq<String>) -> Seq<Seq<char>> {
    v.map_values(|s: String| s@)
}

/// Whether some string of `v` holds the characters of `s`.
fn holds_string(v: &Vec<String>, s: &str) -> (r: bool)
    ensures
        r == string_views(v@).contains(s@),
{
    let mut i: usize = 0;
    while i < v.len()
        invariant
            i <= v@.len(),
            forall|j: int| 0 <= j < i ==> v@[j]@ != s@,
        decreases v@.len() - i,
    {
        if str_eq(v[i].as_str(), s) {
            assert(string_views(v@)[i as int] == s@);
            return true;
        }
        i = i + 1;
    }
    assert(!string_views(v@).contains(s@)) by {
        if string_views(v@).contains(s@) {
            let j = choose|j: int| 0 <= j < string_views(v@).len() && string_views(v@)[j] == s@;
            assert(v@[j]@ == s@);
        }
    }
    false
}

/// Whether every action of `required` is among `present`.
fn all_present(required: &Vec<AccessAction>, present: &Vec<AccessAction>) -> (r: bool)
    ensures
        r == required@.to_set().subset_of(present@.to_set()),
{
    let mut i: usize = 0;
    while i < required.len()
        invariant
            i <= required@.len(),
            forall|j: int| 0 <= j < i ==> present@.contains(#[trigger] required@[j]),
        decreases required@.len() - i,
    {
        let want = required[i];
        let mut found = false;
        let mut k: usize = 0;
        while k < present.len()
            invariant
                k <= present@.len(),
                found ==> present@.contains(want),
                !found ==> forall|m: int| 0 <= m < k ==> present@[m] != want,
            decreases present@.len() - k,
        {
            if present[k] == want {
                found = true;
                assert(present@[k as int] == want);
            }
            k = k + 1;
        }
        if !found {
            assert(required@.to_set().contains(want));
            assert(!present@.to_set().contains(want));
            return false;
        }
        i = i + 1;
    }
    assert forall|a: AccessAction| required@.to_set().contains(a) implies present@.to_set().contains(
        a,
    ) by {
        let j = choose|j: int| 0 <= j < required@.len() && required@[j] == a;
        assert(present@.contains(required@[j]));
    }
    true
}

/// Decides whether `person`, holding the roles `roles` and the permissions
/// `present`, may act where `rules` apply with the actions `required`.
pub fn decide_access(
    rules: &Vec<PolicyRule>,
    person: &str,
    roles: &Vec<String>,
    required: &Vec<AccessAction>,
    present: &Vec<AccessAction>,
) -> (r: bool)
    ensures
        r == access_decision(
            rules@,
            person@,
            string_views(roles@),
            required@.to_set(),
            present@.to_set(),
        ),
{
    let ghost roles_view = string_views(roles@);
    let ghost req = required@.to_set();
    let ghost pres = present@.to_set();
    let mut i: usize = 0;
    assert(rules@.subrange(0, rules@.len() as int) =~= rules@);
    while i < rules.len()
        invariant
            i <= rules@.len(),
            roles_view == string_views(roles@),
            req == required@.to_set(),
            pres == present@.to_set(),
            access_decision(rules@, person@, roles_view, req, pres) == access_decision(
                rules@.subrange(i as int, rules@.len() as int),
                person@,
                roles_view,
                req,
                pres,
            ),
        decreases rules@.len() - i,
    {
        let rule = &rules[i];
        let applies = match rule.resource_type {
            ResourceTypes::Person => str_eq(rule.resource.as_str(), person),
            ResourceTypes::Role => holds_string(roles, rule.resource.as_str()),
            _ => false,
        };
        let ghost rest = rules@.subrange(i as int, rules@.len() as int);
        assert(rest[0] == rules@[i as int]);
        assert(rest.drop_first() =~= rules@.subrange(i + 1, rules@.len() as int));
        if rule.action == PolicyRuleTargetAction::Deny && !applies {
            return false;
        } else if rule.action == PolicyRuleTargetAction::Allow && applies {
            return all_present(required, present);
        }
        i = i + 1;
    }
    false
}

} // verus!
