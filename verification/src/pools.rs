//! Hot pools: suspended template VMs that are forked into fresh VMs on demand.

use vstd::prelude::*;
use vstd::string::*;

use crate::error::{CoreError, Resource, StateError};
#[allow(unused_imports)]
use crate::error::{unit_view, ErrorView, StateErrorView};
use crate::ids::{new_id, short_id};
#[allow(unused_imports)]
use crate::ids::{hex_digit, simple_of};
use crate::names::validate_resource_name;
#[allow(unused_imports)]
use crate::names::{accepted_names_are_valid, name_verdict, valid_name};
use crate::records::{PoolRecord, VmRecord};
use crate::requests::{CreatePoolRequest, CreateVmRequest};
#[allow(unused_imports)]
use crate::requests::{bare_request, VmRequestView};
#[allow(unused_imports)]
use crate::text::{occurs_at, opt_str_view, opt_view};
use crate::time::Timestamp;

verus! {

/// What is wrong with a pool of this name, if anything.
pub open spec fn pool_verdict(name: Seq<char>, taken: bool) -> Result<(), ErrorView> {
    if name_verdict("pool"@, name) is Err {
        name_verdict("pool"@, name)
    } else if taken {
        Err(ErrorView::PoolAlreadyExists(name))
    } else {
        Ok(())
    }
}

/// The request for the template VM of a pool.
pub open spec fn template_of(req: CreatePoolRequest) -> VmRequestView {
    VmRequestView {
        kernel_path: opt_view(req.kernel_path),
        rootfs_path: opt_view(req.rootfs_path),
        initrd_path: opt_view(req.initrd_path),
        vcpu_count: req.vcpu_count,
        mem_size_mib: req.mem_size_mib,
        ..bare_request(req.name@)
    }
}

/// The record of a pool with this template.
pub open spec fn pool_for(
    req: CreatePoolRequest,
    template: VmRecord,
    id: u128,
    now: Timestamp,
) -> PoolRecord {
    PoolRecord {
        id,
        name: req.name,
        template_vm_id: template.id,
        rootfs_path: template.rootfs_path,
        kernel_path: template.kernel_path,
        initrd_path: req.initrd_path,
        vcpu_count: req.vcpu_count,
        mem_size_mib: req.mem_size_mib,
        created_at: now,
        updated_at: now,
    }
}

/// A pool needs a usable name that no pool has.
pub proof fn pools_need_a_free_name(name: Seq<char>, taken: bool)
    ensures
        pool_verdict(name, taken) is Ok <==> valid_name(name) && !taken,
        valid_name(name) && taken ==> pool_verdict(name, taken) == Err::<(), ErrorView>(
            ErrorView::PoolAlreadyExists(name),
        ),
        !valid_name(name) ==> pool_verdict(name, taken)->Err_0 is InvalidArgument,
{
    accepted_names_are_valid("pool"@, name);
}

/// A template boots what its pool was asked to boot, as big as asked for, under the pool's
/// name; it is a plain VM, on the host's default backend, with no script, policy, volume or
/// share of its own.
pub proof fn templates_are_plain_vms(req: CreatePoolRequest)
    ensures
        ({
            let r = template_of(req);
            &&& r.name == req.name@
            &&& r.kernel_path == opt_view(req.kernel_path) && r.rootfs_path == opt_view(
                req.rootfs_path,
            ) && r.initrd_path == opt_view(req.initrd_path)
            &&& r.vcpu_count == req.vcpu_count && r.mem_size_mib == req.mem_size_mib
            &&& r.cloud_image is None && r.vmm is None && r.network is None && r.volume is None
            &&& r.userdata is None && r.env.len() == 0 && r.mounts.len() == 0 && !r.balloon
            &&& r.idle is None && r.idle_timeout_secs is None
        }),
{
}

/// A pool is recorded under its name, with its own template and the files that this booted
/// from.
pub proof fn pools_are_recorded_with_their_template(
    req: CreatePoolRequest,
    template: VmRecord,
    id: u128,
    now: Timestamp,
)
    ensures
        ({
            let r = pool_for(req, template, id, now);
            &&& r.id == id && r.name == req.name && r.template_vm_id == template.id
            &&& r.rootfs_path == template.rootfs_path && r.kernel_path == template.kernel_path
            &&& r.initrd_path == req.initrd_path
            &&& r.vcpu_count == req.vcpu_count && r.mem_size_mib == req.mem_size_mib
            &&& r.created_at == now && r.updated_at == now
        }),
{
}

/// Whether a pool can be created: its name is valid and free.
pub fn check_pool(req: &CreatePoolRequest, taken: bool) -> (r: Result<(), CoreError>)
    ensures
        unit_view(r) == pool_verdict(req.name@, taken),
{
    match validate_resource_name("pool", req.name.as_str()) {
        Err(e) => { return Err(e); },
        Ok(_) => {},
    }
    if taken {
        return Err(CoreError::PoolAlreadyExists(req.name.clone()));
    }
    Ok(())
}

/// The template VM of a pool: a plain VM that is named after it.
pub fn template_request(req: &CreatePoolRequest) -> (r: CreateVmRequest)
    ensures
        r@ == template_of(*req),
{
    let mut r = CreateVmRequest::default();
    r.name = req.name.clone();
    r.kernel_path = req.kernel_path.clone();
    r.rootfs_path = req.rootfs_path.clone();
    r.initrd_path = req.initrd_path.clone();
    r.vcpu_count = req.vcpu_count;
    r.mem_size_mib = req.mem_size_mib;
    r
}

/// What failing to create the template of a pool is reported as.
pub open spec fn template_failure(pool: Seq<char>, e: ErrorView) -> ErrorView {
    match e {
        ErrorView::VmAlreadyExists(_) => ErrorView::PoolAlreadyExists(pool),
        other => other,
    }
}

/// What failing to record a pool is reported as.
pub open spec fn pool_insert_failure(
    pool: Seq<char>,
    template: Seq<char>,
    e: StateErrorView,
) -> ErrorView {
    match e {
        StateErrorView::AlreadyExists(Resource::Pool, _) => ErrorView::PoolAlreadyExists(pool),
        StateErrorView::PoolTemplateOwned(owner) => ErrorView::PoolTemplateOwned {
            vm: template,
            pool: owner,
        },
        StateErrorView::PoolTemplateUnavailable(id) => ErrorView::PoolTemplateUnavailable {
            pool,
            template: id,
        },
        other => ErrorView::State(other),
    }
}

/// What failing to find the template of a pool is reported as.
pub open spec fn template_lookup_failure(pool: PoolRecord, e: StateErrorView) -> ErrorView {
    match e {
        StateErrorView::NotFound(Resource::Vm) => ErrorView::PoolTemplateUnavailable {
            pool: pool.name@,
            template: pool.template_vm_id,
        },
        other => ErrorView::State(other),
    }
}

/// What touching a VM behind its pool's back is answered.
pub open spec fn ownership_verdict(vm: Seq<char>, owner: Option<Seq<char>>) -> Result<
    (),
    ErrorView,
> {
    match owner {
        Some(pool) => Err(ErrorView::PoolTemplateOwned { vm, pool }),
        None => Ok(()),
    }
}

/// A pool's failures name the pool. A name that is taken is taken for the pool, whether by a
/// VM or by a pool; a template that another pool owns is named with its owner; one that is
/// gone is told as such; and all other failures are told as they are.
pub proof fn pool_failures_name_the_pool(
    pool: Seq<char>,
    template: Seq<char>,
    e: ErrorView,
    s: StateErrorView,
    record: PoolRecord,
)
    ensures
        e is VmAlreadyExists ==> template_failure(pool, e) == ErrorView::PoolAlreadyExists(pool),
        e !is VmAlreadyExists ==> template_failure(pool, e) == e,
        s matches StateErrorView::AlreadyExists(Resource::Pool, _) ==> pool_insert_failure(
            pool,
            template,
            s,
        ) == ErrorView::PoolAlreadyExists(pool),
        s matches StateErrorView::PoolTemplateOwned(owner) ==> pool_insert_failure(
            pool,
            template,
            s,
        ) == (ErrorView::PoolTemplateOwned { vm: template, pool: owner }),
        s matches StateErrorView::PoolTemplateUnavailable(id) ==> pool_insert_failure(
            pool,
            template,
            s,
        ) == (ErrorView::PoolTemplateUnavailable { pool, template: id }),
        s is NotFound || s is NotFoundByName || s is CorruptData ==> pool_insert_failure(
            pool,
            template,
            s,
        ) == ErrorView::State(s),
        s == StateErrorView::NotFound(Resource::Vm) ==> template_lookup_failure(record, s) == (
        ErrorView::PoolTemplateUnavailable {
            pool: record.name@,
            template: record.template_vm_id,
        }),
        s != StateErrorView::NotFound(Resource::Vm) ==> template_lookup_failure(record, s)
            == ErrorView::State(s),
{
}

/// A VM may be touched exactly where no pool owns it; the refusal names both.
pub proof fn pools_own_their_templates(vm: Seq<char>, owner: Option<Seq<char>>)
    ensures
        ownership_verdict(vm, owner) is Ok <==> owner is None,
        owner matches Some(pool) ==> ownership_verdict(vm, owner)->Err_0 == (
        ErrorView::PoolTemplateOwned { vm, pool }),
{
}

/// What failing to create the template is reported as: a VM that has its name has
/// the pool's name.
pub fn template_error(pool: &str, e: CoreError) -> (r: CoreError)
    ensures
        r@ == template_failure(pool@, e@),
{
    match e {
        CoreError::VmAlreadyExists(_) => CoreError::PoolAlreadyExists(pool.to_owned()),
        other => other,
    }
}

/// The record of a pool whose template was just suspended.
pub fn new_pool(req: CreatePoolRequest, template: &VmRecord, id: u128, now: Timestamp) -> (r:
    PoolRecord)
    ensures
        r == pool_for(req, *template, id, now),
{
    PoolRecord {
        id,
        name: req.name,
        template_vm_id: template.id,
        rootfs_path: template.rootfs_path.clone(),
        kernel_path: template.kernel_path.clone(),
        initrd_path: req.initrd_path,
        vcpu_count: req.vcpu_count,
        mem_size_mib: req.mem_size_mib,
        created_at: now,
        updated_at: now,
    }
}

/// What failing to record a pool is reported as.
pub fn pool_insert_error(pool: &str, template: &str, e: StateError) -> (r: CoreError)
    ensures
        r@ == pool_insert_failure(pool@, template@, e@),
{
    match e {
        StateError::AlreadyExists(Resource::Pool, _) => CoreError::PoolAlreadyExists(
            pool.to_owned(),
        ),
        StateError::PoolTemplateOwned(owner) => CoreError::PoolTemplateOwned {
            vm: template.to_owned(),
            pool: owner,
        },
        StateError::PoolTemplateUnavailable(id) => CoreError::PoolTemplateUnavailable {
            pool: pool.to_owned(),
            template: id,
        },
        other => CoreError::State(other),
    }
}

/// The stages of creating a pool.
#[derive(Clone, Copy, PartialEq, Eq, Debug, Structural)]
pub enum PoolStep {
    CreateTemplate,
    /// Wait for the template's agent.
    Warm,
    Suspend,
    Record,
    /// Give the pool's name back.
    DestroyTemplate,
    Done,
    Failed,
}

/// What follows a stage, by whether it succeeded. Whatever fails once there is a
/// template, the template is destroyed, so that the pool's name is free again.
pub open spec fn after_pool_step(step: PoolStep, succeeded: bool) -> PoolStep {
    match step {
        PoolStep::CreateTemplate => if succeeded {
            PoolStep::Warm
        } else {
            PoolStep::Failed
        },
        PoolStep::Warm => if succeeded {
            PoolStep::Suspend
        } else {
            PoolStep::DestroyTemplate
        },
        PoolStep::Suspend => if succeeded {
            PoolStep::Record
        } else {
            PoolStep::DestroyTemplate
        },
        PoolStep::Record => if succeeded {
            PoolStep::Done
        } else {
            PoolStep::DestroyTemplate
        },
        PoolStep::DestroyTemplate => PoolStep::Failed,
        PoolStep::Done => PoolStep::Done,
        PoolStep::Failed => PoolStep::Failed,
    }
}

/// What follows a stage of creating a pool, by whether it succeeded.
pub fn next_pool_step(step: PoolStep, succeeded: bool) -> (r: PoolStep)
    ensures
        r == after_pool_step(step, succeeded),
{
    match step {
        PoolStep::CreateTemplate => if succeeded {
            PoolStep::Warm
        } else {
            PoolStep::Failed
        },
        PoolStep::Warm => if succeeded {
            PoolStep::Suspend
        } else {
            PoolStep::DestroyTemplate
        },
        PoolStep::Suspend => if succeeded {
            PoolStep::Record
        } else {
            PoolStep::DestroyTemplate
        },
        PoolStep::Record => if succeeded {
            PoolStep::Done
        } else {
            PoolStep::DestroyTemplate
        },
        PoolStep::DestroyTemplate => PoolStep::Failed,
        PoolStep::Done => PoolStep::Done,
        PoolStep::Failed => PoolStep::Failed,
    }
}

/// Where the creation of a pool gets to, given how each stage went.
pub open spec fn pool_run(went: Seq<bool>) -> PoolStep
    decreases went.len(),
{
    if went.len() == 0 {
        PoolStep::CreateTemplate
    } else {
        after_pool_step(pool_run(went.drop_last()), went.last())
    }
}

/// The template was created and nobody was told to destroy it.
pub open spec fn holds_template(went: Seq<bool>) -> bool
    decreases went.len(),
{
    if went.len() == 0 {
        false
    } else {
        match pool_run(went.drop_last()) {
            PoolStep::CreateTemplate => went.last(),
            PoolStep::DestroyTemplate => false,
            _ => holds_template(went.drop_last()),
        }
    }
}

/// A pool that could not be created leaves no template behind: whichever stage
/// failed, its name is free again. One that was created has its template.
pub proof fn failed_pools_leave_no_template(went: Seq<bool>)
    ensures
        pool_run(went) is Failed ==> !holds_template(went),
        pool_run(went) is Done ==> holds_template(went),
        went.len() >= 5 ==> pool_run(went) is Done || pool_run(went) is Failed,
    decreases went.len(),
{
    pool_stages(went);
}

/// How far the creation of a pool has got after so many stages.
proof fn pool_stages(went: Seq<bool>)
    ensures
        holds_template(went) <==> match pool_run(went) {
            PoolStep::CreateTemplate | PoolStep::Failed => false,
            _ => true,
        },
        match pool_run(went) {
            PoolStep::CreateTemplate => went.len() == 0,
            PoolStep::Warm => went.len() == 1,
            PoolStep::Suspend => went.len() == 2,
            PoolStep::Record => went.len() == 3,
            PoolStep::DestroyTemplate => went.len() <= 4,
            PoolStep::Done | PoolStep::Failed => true,
        },
    decreases went.len(),
{
    if went.len() > 0 {
        pool_stages(went.drop_last());
    }
}

/// The name of a VM that is checked out of a pool, where `id` is drawn for it.
pub open spec fn member_of(pool: Seq<char>, requested: Option<Seq<char>>, id: u128) -> Seq<char> {
    match requested {
        Some(n) => n,
        None => pool + "-"@ + simple_of(id).take(8),
    }
}

/// A VM that is checked out has the name that was asked for, or else one that begins with
/// the pool's and a dash and tells members apart by their ids.
pub proof fn members_are_named_as_asked(
    pool: Seq<char>,
    requested: Option<Seq<char>>,
    id: u128,
    other: u128,
)
    ensures
        requested matches Some(n) ==> member_of(pool, requested, id) == n,
        requested is None ==> occurs_at(member_of(pool, requested, id), pool + "-"@, 0),
        requested is None && simple_of(id).take(8) != simple_of(other).take(8) ==> member_of(
            pool,
            requested,
            id,
        ) != member_of(pool, requested, other),
{
    if requested is None {
        let a = member_of(pool, None, id);
        let b = member_of(pool, None, other);
        let head = pool + "-"@;
        assert(a.subrange(0, head.len() as int) =~= head);
        assert(a.skip(head.len() as int) =~= simple_of(id).take(8));
        assert(b.skip(head.len() as int) =~= simple_of(other).take(8));
    }
}

/// The name of a VM that is checked out of a pool, where `id` is drawn for it: the
/// one asked for, or the pool's name with the beginning of the id.
pub fn member_name(pool: &str, requested: Option<&str>, id: u128) -> (r: String)
    ensures
        r@ == member_of(pool@, opt_str_view(requested), id),
{
    match requested {
        Some(n) => n.to_owned(),
        None => pool.to_owned().concat("-").concat(short_id(id).as_str()),
    }
}

/// A name for a VM that is checked out of a pool.
pub fn checkout_name(pool: &str, requested: Option<&str>) -> (r: String)
    ensures
        requested matches Some(n) ==> r@ == n@,
        requested is None ==> exists|id: u128|
            r@ == pool@ + "-"@ + #[trigger] simple_of(id).take(8),
{
    let id = new_id();
    member_name(pool, requested, id)
}

/// A pool owns its template: it is not touched behind the pool's back.
pub fn ensure_vm_is_not_pool_template(vm: &VmRecord, owner: Option<&PoolRecord>) -> (r: Result<
    (),
    CoreError,
>)
    ensures
        unit_view(r) == ownership_verdict(
            vm.name@,
            match owner {
                Some(pool) => Some(pool.name@),
                None => None,
            },
        ),
{
    match owner {
        Some(pool) => Err(
            CoreError::PoolTemplateOwned { vm: vm.name.clone(), pool: pool.name.clone() },
        ),
        None => Ok(()),
    }
}

/// What failing to find the template of a pool is reported as.
pub fn template_lookup_error(pool: &PoolRecord, e: StateError) -> (r: CoreError)
    ensures
        r@ == template_lookup_failure(*pool, e@),
{
    match e {
        StateError::NotFound(Resource::Vm) => CoreError::PoolTemplateUnavailable {
            pool: pool.name.clone(),
            template: pool.template_vm_id,
        },
        other => CoreError::State(other),
    }
}

/// A pool is made in this order: its template is created, answers, is suspended and is
/// recorded. Only a template that exists is destroyed again.
pub proof fn pools_are_made_in_order(step: PoolStep)
    ensures
        after_pool_step(step, true) == PoolStep::Warm <==> step == PoolStep::CreateTemplate,
        after_pool_step(step, true) == PoolStep::Suspend <==> step == PoolStep::Warm,
        after_pool_step(step, true) == PoolStep::Record <==> step == PoolStep::Suspend,
        after_pool_step(step, true) == PoolStep::Done <==> step == PoolStep::Record || step
            == PoolStep::Done,
        after_pool_step(step, false) == PoolStep::DestroyTemplate <==> step == PoolStep::Warm || step
            == PoolStep::Suspend || step == PoolStep::Record,
        after_pool_step(PoolStep::CreateTemplate, false) == PoolStep::Failed,
        forall|ok: bool| after_pool_step(PoolStep::DestroyTemplate, ok) == PoolStep::Failed,
{
}

} // verus!
