use vstd::prelude::*;
use crate::model::UserRegisteredEvent;
use crate::text::decimal_text;

verus! {

/// A stored profile.
pub struct Profile {
    pub id: String,
    pub userId: String,
    pub name: String,
    pub username: String,
}

/// A profile as it is handed to callers.
pub struct ProfileMessage {
    pub id: String,
    pub user_id: String,
    pub name: String,
    pub username: String,
}

/// Turns a stored profile into the form handed to callers.
pub fn transformProfileDataType(profile: &Profile) -> (r: ProfileMessage)
    ensures
        r.id@ == profile.id@,
        r.user_id@ == profile.userId@,
        r.name@ == profile.name@,
        r.username@ == profile.username@,
{
    ProfileMessage {
        id: profile.id.clone(),
        user_id: profile.userId.clone(),
        name: profile.name.clone(),
        username: profile.username.clone(),
    }
}

/// `p` is found by the search `query`: its name or its username is the query.
pub open spec fn found_by(p: Profile, query: Seq<char>) -> bool {
    p.name@ == query || p.username@ == query
}

/// The profiles of `ps` that `query` finds, in their order.
pub open spec fn search_results(ps: Seq<Profile>, query: Seq<char>) -> Seq<Profile>
    decreases ps.len(),
{
    if ps.len() == 0 {
        Seq::empty()
    } else if found_by(ps.last(), query) {
        search_results(ps.drop_last(), query).push(ps.last())
    } else {
        search_results(ps.drop_last(), query)
    }
}

/// Index of the most recent profile of the user `user_id`; -1 if there is none.
pub open spec fn profile_of(ps: Seq<Profile>, user_id: Seq<char>) -> int
    decreases ps.len(),
{
    if ps.len() == 0 {
        -1
    } else if ps.last().userId@ == user_id {
        ps.len() - 1
    } else {
        profile_of(ps.drop_last(), user_id)
    }
}

/// Why a profile operation failed.
#[derive(PartialEq, Eq, Structural, Clone, Copy, Debug)]
pub enum ProfileError {
    NotFound,
}

/// Where profiles are kept, stated over `profiles`, oldest first.
pub trait ProfilesRepository: Sized {
    spec fn profiles(&self) -> Seq<Profile>;

    /// Adds a profile for a newly registered user.
    fn createProfile(&mut self, args: &UserRegisteredEvent)
        ensures
            final(self).profiles().len() == old(self).profiles().len() + 1,
            final(self).profiles().drop_last() == old(self).profiles(),
            final(self).profiles().last().userId@ == args.user_id@,
            final(self).profiles().last().name@ == args.name@,
            final(self).profiles().last().username@ == args.username@,
    ;

    /// The profiles whose name or username is `query`.
    fn searchProfiles(&self, query: &str) -> (r: Vec<Profile>)
        ensures
            r@ == search_results(self.profiles(), query@),
    ;

    /// The most recent profile of the user `userId`.
    fn getProfileByUserId(&self, userId: &str) -> (r: Result<Profile, ProfileError>)
        ensures
            profile_of(self.profiles(), userId@) < 0 ==> r == Err::<Profile, ProfileError>(ProfileError::NotFound),
            profile_of(self.profiles(), userId@) >= 0 ==> r == Ok::<Profile, ProfileError>(
                self.profiles()[profile_of(self.profiles(), userId@)],
            ),
    ;
}

/// A profile repository held in memory; the profile at index `i` gets the id `profiles:<i>`.
pub struct MemoryProfilesRepository {
    profiles: Vec<Profile>,
}

fn copy_profile(p: &Profile) -> (r: Profile)
    ensures
        r == *p,
{
    Profile { id: p.id.clone(), userId: p.userId.clone(), name: p.name.clone(), username: p.username.clone() }
}

impl MemoryProfilesRepository {
    pub fn new() -> (r: Self)
        ensures
            r.profiles() == Seq::<Profile>::empty(),
    {
        MemoryProfilesRepository { profiles: Vec::new() }
    }
}

impl ProfilesRepository for MemoryProfilesRepository {
    closed spec fn profiles(&self) -> Seq<Profile> {
        self.profiles@
    }

    fn createProfile(&mut self, args: &UserRegisteredEvent) {
        let index = self.profiles.len();
        let id = "profiles:".to_owned().concat(decimal_text(index as u64).as_str());
        self.profiles.push(
            Profile { id, userId: args.user_id.clone(), name: args.name.clone(), username: args.username.clone() },
        );
        assert(self.profiles@.drop_last() =~= old(self).profiles@);
    }

    fn searchProfiles(&self, query: &str) -> (r: Vec<Profile>) {
        let wanted = query.to_owned();
        let mut out: Vec<Profile> = Vec::new();
        let mut i: usize = 0;
        while i < self.profiles.len()
            invariant
                i <= self.profiles@.len(),
                wanted@ == query@,
                out@ == search_results(self.profiles@.subrange(0, i as int), query@),
            decreases self.profiles.len() - i,
        {
            let ghost next = self.profiles@.subrange(0, i + 1);
            assert(next.drop_last() =~= self.profiles@.subrange(0, i as int));
            assert(next.last() == self.profiles@[i as int]);
            let p = &self.profiles[i];
            if p.name == wanted || p.username == wanted {
                out.push(copy_profile(p));
            }
            i = i + 1;
        }
        assert(self.profiles@.subrange(0, self.profiles@.len() as int) =~= self.profiles@);
        out
    }

    fn getProfileByUserId(&self, userId: &str) -> (r: Result<Profile, ProfileError>) {
        let wanted = userId.to_owned();
        let mut i: usize = self.profiles.len();
        assert(self.profiles@.subrange(0, i as int) =~= self.profiles@);
        while i > 0
            invariant
                i <= self.profiles@.len(),
                wanted@ == userId@,
                profile_of(self.profiles@, userId@) == profile_of(self.profiles@.subrange(0, i as int), userId@),
            decreases i,
        {
            let ghost prefix = self.profiles@.subrange(0, i as int);
            assert(prefix.last() == self.profiles@[i - 1]);
            if self.profiles[i - 1].userId == wanted {
                assert(profile_of(prefix, userId@) == i - 1);
                return Ok(copy_profile(&self.profiles[i - 1]));
            }
            assert(prefix.drop_last() =~= self.profiles@.subrange(0, i - 1));
            i = i - 1;
        }
        Err(ProfileError::NotFound)
    }
}

/// The profile operations over a profile repository.
pub struct Usecases<P: ProfilesRepository> {
    db: P,
}

impl<P: ProfilesRepository> Usecases<P> {
    pub closed spec fn profiles(&self) -> Seq<Profile> {
        self.db.profiles()
    }

    pub fn new(db: P) -> (r: Self)
        ensures
            r.profiles() == db.profiles(),
    {
        Usecases { db }
    }

    /// Creates the profile of a newly registered user.
    pub fn createProfile(&mut self, args: &UserRegisteredEvent)
        ensures
            final(self).profiles().len() == old(self).profiles().len() + 1,
            final(self).profiles().drop_last() == old(self).profiles(),
            final(self).profiles().last().userId@ == args.user_id@,
            final(self).profiles().last().name@ == args.name@,
            final(self).profiles().last().username@ == args.username@,
    {
        self.db.createProfile(args)
    }

    /// The profiles whose name or username is `query`.
    pub fn searchProfiles(&self, query: &str) -> (r: Vec<Profile>)
        ensures
            r@ == search_results(self.profiles(), query@),
    {
        self.db.searchProfiles(query)
    }

    /// The profile of the user `userId`.
    pub fn getProfileByUserId(&self, userId: &str) -> (r: Result<Profile, ProfileError>)
        ensures
            profile_of(self.profiles(), userId@) < 0 ==> r == Err::<Profile, ProfileError>(ProfileError::NotFound),
            profile_of(self.profiles(), userId@) >= 0 ==> r == Ok::<Profile, ProfileError>(
                self.profiles()[profile_of(self.profiles(), userId@)],
            ),
    {
        self.db.getProfileByUserId(userId)
    }
}

} // verus!
