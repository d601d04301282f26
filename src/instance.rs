use vstd::prelude::*;
use single_instance::error::SingleInstanceError;
use single_instance::SingleInstance;

verus! {

#[verifier::external_type_specification]
#[verifier::external_body]
pub struct ExSingleInstance(SingleInstance);

#[verifier::external_type_specification]
#[verifier::external_body]
pub struct ExSingleInstanceError(SingleInstanceError);

/// Relies on single_instance::SingleInstance::new: it tries to take the
/// machine-wide lock named `name` and fails only when the lock primitive
/// itself cannot be set up; whether the lock was taken is told by
/// `is_single`, which depends on the other processes running.
pub assume_specification[ SingleInstance::new ](name: &str) -> Result<
    SingleInstance,
    SingleInstanceError,
>;

/// Relies on single_instance::SingleInstance::is_single: whether this value
/// holds the lock.
pub assume_specification[ SingleInstance::is_single ](s: &SingleInstance) -> bool;

/// The lock primitive could not be set up; the process must not guess
/// whether it is the only one.
#[derive(Clone, Copy, Debug, PartialEq, Eq, Structural)]
pub enum ClaimError {
    LockUnavailable,
}

/// Whether this process owns the instance lock.
#[derive(Clone, Copy, Debug, PartialEq, Eq, Structural)]
pub enum Role {
    /// It holds the lock and runs the application.
    Primary,
    /// Another process holds the lock.
    Secondary,
}

/// The process-wide claim on the instance lock. The lock is held for as
/// long as this value lives, and released when the process exits.
pub struct InstanceClaim {
    lock_name: String,
    /// Owns the lock; never read, only kept alive.
    #[allow(dead_code)]
    lock: SingleInstance,
    held: bool,
}

impl InstanceClaim {
    pub closed spec fn lock_name_spec(&self) -> Seq<char> {
        self.lock_name@
    }

    pub closed spec fn held_spec(&self) -> bool {
        self.held
    }

    pub open spec fn role_spec(&self) -> Role {
        if self.held_spec() {
            Role::Primary
        } else {
            Role::Secondary
        }
    }

    /// Tries to take the lock named `lock_name`.
    pub fn acquire(lock_name: &str) -> (r: Result<InstanceClaim, ClaimError>)
        ensures
            r matches Ok(c) ==> c.lock_name_spec() == lock_name@,
    {
        match SingleInstance::new(lock_name) {
            Ok(lock) => {
                let held = lock.is_single();
                Ok(InstanceClaim { lock_name: lock_name.to_owned(), lock, held })
            },
            Err(_) => Err(ClaimError::LockUnavailable),
        }
    }

    /// The name of the lock.
    pub fn lock_name(&self) -> (r: &str)
        ensures
            r@ == self.lock_name_spec(),
    {
        self.lock_name.as_str()
    }

    /// Whether this process holds the lock.
    pub fn is_primary(&self) -> (r: bool)
        ensures
            r == self.held_spec(),
    {
        self.held
    }

    pub fn role(&self) -> (r: Role)
        ensures
            r == self.role_spec(),
    {
        if self.held {
            Role::Primary
        } else {
            Role::Secondary
        }
    }
}

/// One step of process startup.
#[derive(Clone, Copy, Debug, PartialEq, Eq, Structural)]
pub enum LaunchStep {
    /// Register the handler that restores the window when another launch is
    /// attempted.
    RegisterActivationHandler,
    /// Build the application context and its primary window.
    BuildMainWindow,
    /// Install the tray icon and its menu.
    InstallTray,
    /// Run the application until it exits.
    RunEventLoop,
    /// Send this process's arguments and working directory to the process
    /// that holds the lock.
    ForwardActivation,
    /// Exit normally.
    Exit,
    /// Stop at once: ownership of the lock is unknown.
    Abort,
}

/// The startup of a process in `role`.
pub open spec fn launch_plan_of(role: Role) -> Seq<LaunchStep> {
    match role {
        Role::Primary => seq![
            LaunchStep::RegisterActivationHandler,
            LaunchStep::BuildMainWindow,
            LaunchStep::InstallTray,
            LaunchStep::RunEventLoop,
        ],
        Role::Secondary => seq![LaunchStep::ForwardActivation, LaunchStep::Exit],
    }
}

/// The startup that follows an attempt to claim the instance lock.
pub open spec fn startup_of(claim: Result<InstanceClaim, ClaimError>) -> Seq<LaunchStep> {
    match claim {
        Ok(c) => launch_plan_of(c.role_spec()),
        Err(_) => seq![LaunchStep::Abort],
    }
}

/// The steps this process takes at startup, given its attempt to claim the
/// instance lock.
pub fn launch_plan(claim: &Result<InstanceClaim, ClaimError>) -> (r: Vec<LaunchStep>)
    ensures
        r@ == startup_of(*claim),
{
    match claim {
        Ok(c) => {
            if c.is_primary() {
                vec![
                    LaunchStep::RegisterActivationHandler,
                    LaunchStep::BuildMainWindow,
                    LaunchStep::InstallTray,
                    LaunchStep::RunEventLoop,
                ]
            } else {
                vec![LaunchStep::ForwardActivation, LaunchStep::Exit]
            }
        },
        Err(_) => vec![LaunchStep::Abort],
    }
}

/// A launch attempted while another process holds the lock builds no
/// window: it forwards exactly one activation to the holder and exits.
pub proof fn secondary_launch_only_forwards()
    ensures
        forall|i: int|
            0 <= i < launch_plan_of(Role::Secondary).len() ==> #[trigger] launch_plan_of(
                Role::Secondary,
            )[i] != LaunchStep::BuildMainWindow,
        launch_plan_of(Role::Secondary).filter(|s: LaunchStep| s == LaunchStep::ForwardActivation).len()
            == 1,
{
    let plan = launch_plan_of(Role::Secondary);
    reveal_with_fuel(Seq::filter, 3);
    assert(plan.filter(|s: LaunchStep| s == LaunchStep::ForwardActivation) =~= seq![
        LaunchStep::ForwardActivation,
    ]);
}

} // verus!
