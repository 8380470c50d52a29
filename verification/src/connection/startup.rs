use std::borrow::Cow;
use vstd::prelude::*;

use super::PgConfig;

verus! {

/// The string a `Cow<str>` holds.
fn cow_str<'b>(c: &'b Cow<'b, str>) -> (r: &'b str)
    ensures
        r@ == c@,
{
    match c {
        Cow::Borrowed(s) => s,
        Cow::Owned(s) => s.as_str(),
    }
}

/// A config for postgres startup phase.
///
/// <https://www.postgresql.org/docs/current/protocol-flow.html#PROTOCOL-FLOW-START-UP>
pub struct StartupConfig<'a> {
    user: Cow<'a, str>,
    database: Option<Cow<'a, str>>,
    password: Option<Cow<'a, str>>,
    replication: Option<Cow<'a, str>>,
}

impl<'a> StartupConfig<'a> {
    pub closed spec fn spec_user(&self) -> Seq<char> {
        self.user@
    }

    pub closed spec fn spec_database(&self) -> Option<Seq<char>> {
        match self.database {
            Some(d) => Some(d@),
            None => None,
        }
    }

    pub closed spec fn spec_password(&self) -> Option<Seq<char>> {
        match self.password {
            Some(d) => Some(d@),
            None => None,
        }
    }

    pub closed spec fn spec_replication(&self) -> Option<Seq<char>> {
        match self.replication {
            Some(d) => Some(d@),
            None => None,
        }
    }

    /// Create new config, the database user name is required.
    pub fn new(user: Cow<'a, str>) -> (r: Self)
        ensures
            r.spec_user() == user@,
            r.spec_database() is None,
            r.spec_password() is None,
            r.spec_replication() is None,
    {
        Self { user, database: None, password: None, replication: None }
    }

    /// The database user name to connect as.
    pub fn user(&self) -> (r: &str)
        ensures
            r@ == self.spec_user(),
    {
        cow_str(&self.user)
    }

    /// The database to connect to. Defaults to the user name.
    pub fn database(&self) -> (r: Option<&str>)
        ensures
            match r {
                Some(s) => self.spec_database() == Some(s@),
                None => self.spec_database() is None,
            },
    {
        match &self.database {
            Some(c) => Some(cow_str(c)),
            None => None,
        }
    }

    /// The database to connect to. Defaults to the user name.
    pub fn set_database(self, database: Cow<'a, str>) -> (r: Self)
        ensures
            r.spec_user() == self.spec_user(),
            r.spec_database() == Some(database@),
            r.spec_password() == self.spec_password(),
            r.spec_replication() == self.spec_replication(),
    {
        let mut me = self;
        me.database = Some(database);
        me
    }

    /// Authentication password, the default is empty string.
    pub fn password(&self) -> (r: Option<&str>)
        ensures
            match r {
                Some(s) => self.spec_password() == Some(s@),
                None => self.spec_password() is None,
            },
    {
        match &self.password {
            Some(c) => Some(cow_str(c)),
            None => None,
        }
    }

    /// Authentication password, the default is empty string.
    pub fn set_password(self, password: Cow<'a, str>) -> (r: Self)
        ensures
            r.spec_user() == self.spec_user(),
            r.spec_database() == self.spec_database(),
            r.spec_password() == Some(password@),
            r.spec_replication() == self.spec_replication(),
    {
        let mut me = self;
        me.password = Some(password);
        me
    }

    /// Used to connect in streaming replication mode, where a small set of replication commands can be issued
    /// instead of SQL statements.
    ///
    /// Value can be true, false, or database, and the default is false.
    pub fn replication(&self) -> (r: Option<&str>)
        ensures
            match r {
                Some(s) => self.spec_replication() == Some(s@),
                None => self.spec_replication() is None,
            },
    {
        match &self.replication {
            Some(c) => Some(cow_str(c)),
            None => None,
        }
    }

    /// Used to connect in streaming replication mode.
    ///
    /// Value can be true, false, or database, and the default is false.
    pub fn set_replication(self, replication: Cow<'a, str>) -> (r: Self)
        ensures
            r.spec_user() == self.spec_user(),
            r.spec_database() == self.spec_database(),
            r.spec_password() == self.spec_password(),
            r.spec_replication() == Some(replication@),
    {
        let mut me = self;
        me.replication = Some(replication);
        me
    }

    /// The startup settings of a connection config: its user, database and
    /// password.
    pub fn from_config(config: &'a PgConfig) -> (r: StartupConfig<'a>)
        ensures
            vstd::utf8::encode_utf8(r.spec_user()) == config.spec_user(),
            r.spec_database() matches Some(d) && vstd::utf8::encode_utf8(d)
                == config.spec_dbname(),
            r.spec_password() matches Some(p) && vstd::utf8::encode_utf8(p) == config.spec_pass(),
            r.spec_replication() is None,
    {
        StartupConfig::new(Cow::Borrowed(config.user())).set_database(
            Cow::Borrowed(config.dbname()),
        ).set_password(Cow::Borrowed(config.pass()))
    }
}

/// Builder of a [`StartupConfig`].
pub struct StartupConfigBuilder<'a> {
    config: StartupConfig<'a>,
}

impl<'a> StartupConfigBuilder<'a> {
    /// The config built so far.
    pub closed spec fn spec_config(&self) -> StartupConfig<'a> {
        self.config
    }

    /// Create new config builder, the database user name is required.
    pub fn new(user: Cow<'a, str>) -> (r: Self)
        ensures
            r.spec_config().spec_user() == user@,
            r.spec_config().spec_database() is None,
            r.spec_config().spec_password() is None,
            r.spec_config().spec_replication() is None,
    {
        Self { config: StartupConfig::new(user) }
    }

    /// The database to connect to. Defaults to the user name.
    pub fn database(self, database: Cow<'a, str>) -> (r: Self)
        ensures
            r.spec_config().spec_user() == self.spec_config().spec_user(),
            r.spec_config().spec_database() == Some(database@),
            r.spec_config().spec_password() == self.spec_config().spec_password(),
            r.spec_config().spec_replication() == self.spec_config().spec_replication(),
    {
        Self { config: self.config.set_database(database) }
    }

    /// Authentication password, the default is empty string.
    pub fn password(self, password: Cow<'a, str>) -> (r: Self)
        ensures
            r.spec_config().spec_user() == self.spec_config().spec_user(),
            r.spec_config().spec_database() == self.spec_config().spec_database(),
            r.spec_config().spec_password() == Some(password@),
            r.spec_config().spec_replication() == self.spec_config().spec_replication(),
    {
        Self { config: self.config.set_password(password) }
    }

    /// Used to connect in streaming replication mode.
    pub fn replication(self, replication: Cow<'a, str>) -> (r: Self)
        ensures
            r.spec_config().spec_user() == self.spec_config().spec_user(),
            r.spec_config().spec_database() == self.spec_config().spec_database(),
            r.spec_config().spec_password() == self.spec_config().spec_password(),
            r.spec_config().spec_replication() == Some(replication@),
    {
        Self { config: self.config.set_replication(replication) }
    }

    /// Finish builder, returns [`StartupConfig`].
    pub fn build(self) -> (r: StartupConfig<'a>)
        ensures
            r == self.spec_config(),
    {
        self.config
    }
}

/// A setter call on a [`StartupConfigBuilder`]: which field it sets
/// (`0` the database, `1` the password, `2` the replication mode) and the
/// value.
pub type SetterCall = (u8, Seq<char>);

/// `new` is what setter call `call` makes of `old`, as the setters
/// [`StartupConfigBuilder::database`], [`StartupConfigBuilder::password`]
/// and [`StartupConfigBuilder::replication`] state: the field called is
/// set, every other field stays.
pub open spec fn builder_step<'a>(
    old: StartupConfigBuilder<'a>,
    call: SetterCall,
    new: StartupConfigBuilder<'a>,
) -> bool {
    let (o, n) = (old.spec_config(), new.spec_config());
    &&& n.spec_user() == o.spec_user()
    &&& n.spec_database() == (if call.0 == 0 { Some(call.1) } else { o.spec_database() })
    &&& n.spec_password() == (if call.0 == 1 { Some(call.1) } else { o.spec_password() })
    &&& n.spec_replication() == (if call.0 == 2 { Some(call.1) } else { o.spec_replication() })
}

/// Call `i` of a sequence of builders: builder `i + 1` is what call `i`
/// makes of builder `i`.
pub open spec fn builder_step_at<'a>(
    builders: Seq<StartupConfigBuilder<'a>>,
    calls: Seq<SetterCall>,
    i: int,
) -> bool {
    builder_step(builders[i], calls[i], builders[i + 1])
}

/// The value that the last call setting field `field` gave it, if any.
pub open spec fn last_set(calls: Seq<SetterCall>, field: u8) -> Option<Seq<char>>
    decreases calls.len(),
{
    if calls.len() == 0 {
        None
    } else if calls.last().0 == field {
        Some(calls.last().1)
    } else {
        last_set(calls.drop_last(), field)
    }
}

/// Each builder setter changes its own field only, whatever the calls
/// before and after it.  A builder made by [`StartupConfigBuilder::new`]
/// with user `user`, then given setter calls `calls` in order, builds a
/// config with that user, and whose database, password and replication
/// mode are each the value of the last call that set it, or none when no
/// call did: the same as [`StartupConfig::new`] followed by the matching
/// `set_` calls.
pub proof fn law_builder_fields<'a>(
    builders: Seq<StartupConfigBuilder<'a>>,
    calls: Seq<SetterCall>,
    user: Seq<char>,
)
    requires
        builders.len() == calls.len() + 1,
        builders[0].spec_config().spec_user() == user,
        builders[0].spec_config().spec_database() is None,
        builders[0].spec_config().spec_password() is None,
        builders[0].spec_config().spec_replication() is None,
        forall|i: int| 0 <= i < calls.len() ==> #[trigger] builder_step_at(builders, calls, i),
    ensures
        builders.last().spec_config().spec_user() == user,
        builders.last().spec_config().spec_database() == last_set(calls, 0),
        builders.last().spec_config().spec_password() == last_set(calls, 1),
        builders.last().spec_config().spec_replication() == last_set(calls, 2),
    decreases calls.len(),
{
    if calls.len() > 0 {
        let k = calls.len() - 1;
        assert(builder_step_at(builders, calls, k));
        assert forall|i: int| 0 <= i < calls.drop_last().len() implies #[trigger] builder_step_at(
            builders.drop_last(),
            calls.drop_last(),
            i,
        ) by {
            assert(builder_step_at(builders, calls, i));
        }
        law_builder_fields(builders.drop_last(), calls.drop_last(), user);
    }
}

} // verus!
