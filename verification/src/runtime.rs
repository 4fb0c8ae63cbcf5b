//! The runtime context: what backs the host's side of one invocation.

use crate::error::describe;
use crate::error::error_text;
use crate::error::WasmError;
use crate::error::WasmErrorView;
use vstd::prelude::*;
use wasmtime_wasi::preview2::Table;
use wasmtime_wasi::preview2::WasiCtx;
use wasmtime_wasi::preview2::WasiCtxBuilder;
use wasmtime_wasi::preview2::WasiView;

verus! {

/// `wasmtime_wasi::preview2::Table`, the capability table: it maps
/// handles to the host's resources.
#[verifier::external_type_specification]
#[verifier::external_body]
pub struct ExTable(Table);

/// `wasmtime_wasi::preview2::WasiCtx`, the context of the system
/// interface: what the guest may reach through it.
#[verifier::external_type_specification]
#[verifier::external_body]
pub struct ExWasiCtx(WasiCtx);

/// The handles under which a capability table holds a resource.
pub uninterp spec fn table_keys(table: Table) -> Set<u32>;

/// The handle that a capability table tries first for its next resource.
pub uninterp spec fn table_next_key(table: Table) -> u32;

/// The handles under which a capability table holds a stream that reads
/// from or writes to a standard stream of the host.
pub uninterp spec fn host_streams(table: Table) -> Set<u32>;

/// The guest paths of the directories that a system context has open for
/// the guest, in the order in which they were granted.
pub uninterp spec fn granted_dirs(ctx: WasiCtx) -> Seq<Seq<char>>;

/// The environment variables that a system context shows to the guest.
pub uninterp spec fn granted_env(ctx: WasiCtx) -> Seq<(Seq<char>, Seq<char>)>;

/// The program arguments that a system context shows to the guest.
pub uninterp spec fn granted_args(ctx: WasiCtx) -> Seq<Seq<char>>;

/// The handles of the three standard streams of a system context: input,
/// output, error, in this order.
pub uninterp spec fn standard_streams(ctx: WasiCtx) -> Seq<u32>;

/// `Table::new`: a table that holds nothing, and that hands out its
/// handles from 3 on.
#[verifier::external_body]
fn empty_table() -> (table: Table)
    ensures
        table_keys(table) == Set::<u32>::empty(),
        table_next_key(table) == 3,
        host_streams(table) == Set::<u32>::empty(),
{
    Table::new()
}

/// `WasiCtxBuilder::new` followed by `WasiCtxBuilder::build`: the context
/// of a builder to which nothing was granted.
///
/// The builder starts with no directory, no environment variable and no
/// program argument, and `build` hands the three lists on as they are. Its
/// standard input is empty and its standard output and error are sinks:
/// none of them is a stream of the host.
///
/// `build` pushes these three streams into the table, input first, and
/// nothing else; the context keeps their handles. A push takes a handle
/// that was free, the next one of the table where the table holds nothing,
/// and keeps what the table held. It fails only on a table that is full,
/// which holds a resource under every handle but one; a failure may leave
/// some of the three behind.
#[verifier::external_body]
fn build_default_context(table: &mut Table) -> (built: Result<WasiCtx, anyhow::Error>)
    ensures
        table_keys(*final(table)).finite(),
        table_keys(*old(table)).subset_of(table_keys(*final(table))),
        host_streams(*final(table)) == host_streams(*old(table)),
        table_keys(*old(table)).len() + 3 <= 0xFFFF_FFFF ==> built is Ok,
        built matches Ok(ctx) ==> {
            let streams = standard_streams(ctx);
            &&& granted_dirs(ctx).len() == 0
            &&& granted_env(ctx).len() == 0
            &&& granted_args(ctx).len() == 0
            &&& streams.len() == 3
            &&& streams[0] != streams[1] && streams[0] != streams[2] && streams[1] != streams[2]
            &&& !table_keys(*old(table)).contains(streams[0])
            &&& !table_keys(*old(table)).contains(streams[1])
            &&& !table_keys(*old(table)).contains(streams[2])
            &&& table_keys(*final(table)) == table_keys(*old(table)).insert(streams[0]).insert(
                streams[1],
            ).insert(streams[2])
            &&& table_keys(*old(table)).len() == 0 && table_next_key(*old(table)) + 3
                <= 0xFFFF_FFFF ==> {
                &&& streams[0] == table_next_key(*old(table))
                &&& streams[1] == table_next_key(*old(table)) + 1
                &&& streams[2] == table_next_key(*old(table)) + 2
                &&& table_next_key(*final(table)) == table_next_key(*old(table)) + 3
            }
        },
{
    WasiCtxBuilder::new().build(table)
}

/// The state behind the host's functions and the system interface, for one
/// invocation. It is built anew for each, and never shared.
pub struct PluginRuntime {
    wasi_ctx: WasiCtx,
    table: Table,
}

impl PluginRuntime {
    /// The capability table.
    pub closed spec fn table_view(&self) -> Table {
        self.table
    }

    /// The system context.
    pub closed spec fn ctx_view(&self) -> WasiCtx {
        self.wasi_ctx
    }

    /// The state in which every context starts, and in which it grants
    /// nothing of the host: no directory is open for the guest, and no
    /// environment variable and no program argument is shown to it. The
    /// capability table holds the three standard streams of the context,
    /// under the handles 3, 4 and 5, and nothing else; none of the three
    /// is a stream of the host.
    pub open spec fn grants_nothing(&self) -> bool {
        &&& granted_dirs(self.ctx_view()).len() == 0
        &&& granted_env(self.ctx_view()).len() == 0
        &&& granted_args(self.ctx_view()).len() == 0
        &&& standard_streams(self.ctx_view()) == seq![3u32, 4u32, 5u32]
        &&& table_keys(self.table_view()) == set![3u32, 4u32, 5u32]
        &&& table_next_key(self.table_view()) == 6
        &&& host_streams(self.table_view()) == Set::<u32>::empty()
    }

    /// What `new` makes of a table and of the outcome of building the
    /// system context on it.
    pub open spec fn assembled(
        table: Table,
        built: Result<WasiCtx, anyhow::Error>,
        made: Result<PluginRuntime, WasmError>,
    ) -> bool {
        match built {
            Ok(ctx) => made matches Ok(runtime) && runtime.ctx_view() == ctx
                && runtime.table_view() == table,
            Err(error) => made matches Err(failure) && failure@
                == WasmErrorView::ContextError(error_text(error)),
        }
    }

    /// Puts a context together from a table and the outcome of building the
    /// system context on it: a failure to build is a `ContextError` with
    /// the failure's text.
    pub fn assemble(table: Table, built: Result<WasiCtx, anyhow::Error>) -> (made: Result<
        PluginRuntime,
        WasmError,
    >)
        ensures
            PluginRuntime::assembled(table, built, made),
    {
        match built {
            Ok(wasi_ctx) => Ok(PluginRuntime { wasi_ctx, table }),
            Err(error) => Err(WasmError::ContextError(describe(&error))),
        }
    }

    /// A fresh context that grants nothing. On a table that holds nothing
    /// the system context can always be built, so this succeeds; the
    /// result says so in its type only because building can fail on a
    /// table that is full.
    pub fn new() -> (made: Result<PluginRuntime, WasmError>)
        ensures
            made matches Ok(runtime) && runtime.grants_nothing(),
    {
        let mut table = empty_table();
        let built = build_default_context(&mut table);
        proof {
            if built is Ok {
                let streams = standard_streams(built->Ok_0);
                assert(streams =~= seq![3u32, 4u32, 5u32]);
                assert(table_keys(table) =~= set![3u32, 4u32, 5u32]);
            }
        }
        PluginRuntime::assemble(table, built)
    }
}

/// Two contexts that grant nothing are in the same state: what they show
/// to the guest, the handles of their tables and of their streams are the
/// same. So every invocation starts from the same state, whatever an
/// earlier one has done to its own context.
pub proof fn lemma_fresh_contexts_start_alike(first: PluginRuntime, second: PluginRuntime)
    requires
        first.grants_nothing(),
        second.grants_nothing(),
    ensures
        granted_dirs(first.ctx_view()) == granted_dirs(second.ctx_view()),
        granted_env(first.ctx_view()) == granted_env(second.ctx_view()),
        granted_args(first.ctx_view()) == granted_args(second.ctx_view()),
        standard_streams(first.ctx_view()) == standard_streams(second.ctx_view()),
        table_keys(first.table_view()) == table_keys(second.table_view()),
        table_next_key(first.table_view()) == table_next_key(second.table_view()),
        host_streams(first.table_view()) == host_streams(second.table_view()),
        forall|index: int|
            0 <= index < 3 ==> table_keys(first.table_view()).contains(
                #[trigger] standard_streams(first.ctx_view())[index],
            ),
{
    assert(granted_dirs(first.ctx_view()) =~= granted_dirs(second.ctx_view()));
    assert(granted_env(first.ctx_view()) =~= granted_env(second.ctx_view()));
    assert(granted_args(first.ctx_view()) =~= granted_args(second.ctx_view()));
}

impl WasiView for PluginRuntime {
    fn table(&self) -> (table: &Table)
        ensures
            *table == self.table_view(),
    {
        &self.table
    }

    fn table_mut(&mut self) -> (table: &mut Table)
        ensures
            *table == old(self).table_view(),
            final(self).table_view() == *final(table),
            final(self).ctx_view() == old(self).ctx_view(),
    {
        &mut self.table
    }

    fn ctx(&self) -> (ctx: &WasiCtx)
        ensures
            *ctx == self.ctx_view(),
    {
        &self.wasi_ctx
    }

    fn ctx_mut(&mut self) -> (ctx: &mut WasiCtx)
        ensures
            *ctx == old(self).ctx_view(),
            final(self).ctx_view() == *final(ctx),
            final(self).table_view() == old(self).table_view(),
    {
        &mut self.wasi_ctx
    }
}

} // verus!
