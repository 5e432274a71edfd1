//! The frame sync driver.
//!
//! Once per tick the driver walks every live entity of the snapshot, and for
//! each attached component resolves a logger — session table first, default
//! table second, generic text fallback last — runs it, and collects the
//! resulting batches into messages keyed by the entity's resolved path and
//! the logger's optional name suffix, stamped with the tick's logical time.
//! A component mapped to a logger the embedding application registered is
//! handed back as a deferred item. Nothing in the walk fails: a suppressed
//! or empty result simply contributes no message.

use vstd::prelude::*;

use crate::batch::{BatchModel, SerializedBatch, batches_view};
use crate::default_loggers::{
    DefaultRerunComponentLoggers, aabb_type_path, bevy_aabb, bevy_camera, bevy_child_of,
    bevy_children, bevy_global_transform, bevy_mesh2d, bevy_mesh3d, bevy_sprite, bevy_transform,
    child_of_type_path, children_type_path, entity_path_type_path, global_transform_type_path,
    mesh2d_type_path, mesh3d_type_path, projection_type_path, spec_aabb_logger_batches,
    spec_aabb_type_path, spec_camera_logger_batches, spec_child_of_logger_batches,
    spec_child_of_type_path, spec_children_logger_batches, spec_children_type_path,
    spec_entity_path_type_path, spec_global_transform_logger_batches,
    spec_global_transform_type_path, spec_mesh2d_logger_batches, spec_mesh2d_type_path,
    spec_mesh3d_logger_batches, spec_mesh3d_type_path, spec_projection_type_path,
    spec_sprite_logger_batches, spec_sprite_type_path, spec_suffix_aabb, spec_suffix_cam,
    spec_suffix_mesh2d, spec_suffix_mesh3d, spec_suffix_sprite, spec_transform_logger_batches,
    spec_transform_type_path, sprite_type_path, transform_type_path,
};
use crate::entity_path::{compute_entity_path, spec_path_string};
use crate::rerun_logger::{
    RerunComponentLoggers, RerunLogger, get_component_logger, lemma_absent_resolves_to_fallback,
    lemma_session_none_suppresses, log_ignored_component, spec_get_component_logger,
    spec_ignored_component_batches, spec_session_view,
};
use crate::world::{EntityData, WorldSnapshot};

verus! {

/// The value an optional viewable holds, viewed.
pub open spec fn spec_opt_view<T: View>(o: Option<T>) -> Option<T::V> {
    match o {
        Some(x) => Some(x@),
        None => None,
    }
}

/// One message for the sink: the batches one logger produced for one
/// entity, keyed by the entity's resolved path and the logger's optional
/// name suffix — the two-part key under which the sink stores them — at one
/// logical time.
#[derive(Clone, Debug)]
pub struct LogMessage {
    pub entity_path: String,
    pub suffix: Option<String>,
    pub time: u64,
    pub batches: Vec<SerializedBatch>,
}

/// The mathematical value of a [`LogMessage`].
#[verifier::ext_equal]
pub struct LogMessageModel {
    pub entity_path: Seq<char>,
    pub suffix: Option<Seq<char>>,
    pub time: u64,
    pub batches: Seq<BatchModel>,
}

impl View for LogMessage {
    type V = LogMessageModel;

    open spec fn view(&self) -> LogMessageModel {
        LogMessageModel {
            entity_path: self.entity_path@,
            suffix: spec_opt_view(self.suffix),
            time: self.time,
            batches: batches_view(self.batches@),
        }
    }
}

/// The one-string path a sink stores a message under: the entity path, with
/// the suffix as one more segment below it when there is one.
pub open spec fn spec_sink_path(m: LogMessageModel) -> Seq<char> {
    match m.suffix {
        None => m.entity_path,
        Some(s) => m.entity_path + seq!['/'] + s,
    }
}

impl LogMessage {
    /// The sink path of this message: entity path plus suffix segment.
    pub fn sink_path(&self) -> (r: String)
        ensures
            r@ == spec_sink_path(self@),
    {
        match &self.suffix {
            None => self.entity_path.clone(),
            Some(s) => {
                proof {
                    reveal_strlit("/");
                    assert("/"@ =~= seq!['/']);
                }
                self.entity_path.clone().concat("/").concat(s.as_str())
            },
        }
    }
}

/// One output item of a tick.
#[derive(Clone, Debug)]
pub enum SyncItem {
    /// Batches ready for the sink.
    Message(LogMessage),
    /// A component whose resolved logger is one the embedding application
    /// registered: the library defers to it.
    Custom { logger: u64, entity: u64, component: String },
}

/// The mathematical value of a [`SyncItem`].
#[verifier::ext_equal]
pub enum SyncItemModel {
    Message(LogMessageModel),
    Custom { logger: u64, entity: u64, component: Seq<char> },
}

impl View for SyncItem {
    type V = SyncItemModel;

    open spec fn view(&self) -> SyncItemModel {
        match self {
            SyncItem::Message(m) => SyncItemModel::Message(m@),
            SyncItem::Custom { logger, entity, component } => SyncItemModel::Custom {
                logger: *logger,
                entity: *entity,
                component: component@,
            },
        }
    }
}

/// The models of a list of sync items.
pub open spec fn sync_items_view(s: Seq<SyncItem>) -> Seq<SyncItemModel> {
    s.map_values(|x: SyncItem| x@)
}

/// The models of a list of attached components: type name and optional
/// reflected rendering.
pub open spec fn components_view(s: Seq<(String, Option<String>)>) -> Seq<
    (Seq<char>, Option<Seq<char>>),
> {
    s.map_values(|p: (String, Option<String>)| (p.0@, spec_opt_view(p.1)))
}

/// The components attached to an entity, each as its type name plus, for an
/// unmodelled component, the optional reflected rendering: first the
/// modelled components that are present, in a fixed order, then the
/// unmodelled ones in the host's order. The naming component feeds path
/// resolution and is not listed; the path-override marker is listed (and
/// suppressed by the default table).
pub open spec fn spec_attached(e: EntityData) -> Seq<(Seq<char>, Option<Seq<char>>)> {
    spec_attached_well_known(e) + e.others@.map_values(
        |d: crate::world::DynComponent| (d.type_path@, spec_opt_view(d.reflected)),
    )
}

/// The modelled components present on an entity, in a fixed order.
pub open spec fn spec_attached_well_known(e: EntityData) -> Seq<(Seq<char>, Option<Seq<char>>)> {
    let s = Seq::<(Seq<char>, Option<Seq<char>>)>::empty();
    let s = if e.transform is Some {
        s.push((spec_transform_type_path(), None::<Seq<char>>))
    } else {
        s
    };
    let s = if e.global_transform is Some {
        s.push((spec_global_transform_type_path(), None::<Seq<char>>))
    } else {
        s
    };
    let s = if e.aabb is Some {
        s.push((spec_aabb_type_path(), None::<Seq<char>>))
    } else {
        s
    };
    let s = if e.mesh2d is Some {
        s.push((spec_mesh2d_type_path(), None::<Seq<char>>))
    } else {
        s
    };
    let s = if e.mesh3d is Some {
        s.push((spec_mesh3d_type_path(), None::<Seq<char>>))
    } else {
        s
    };
    let s = if e.projection is Some {
        s.push((spec_projection_type_path(), None::<Seq<char>>))
    } else {
        s
    };
    let s = if e.sprite is Some {
        s.push((spec_sprite_type_path(), None::<Seq<char>>))
    } else {
        s
    };
    let s = if e.parent is Some {
        s.push((spec_child_of_type_path(), None::<Seq<char>>))
    } else {
        s
    };
    let s = if e.children is Some {
        s.push((spec_children_type_path(), None::<Seq<char>>))
    } else {
        s
    };
    let s = if e.path_override is Some {
        s.push((spec_entity_path_type_path(), None::<Seq<char>>))
    } else {
        s
    };
    s
}

/// Appends one modelled component's type name to a component list.
fn push_marker(r: &mut Vec<(String, Option<String>)>, name: &'static str)
    ensures
        components_view(final(r)@) == components_view(old(r)@).push((name@, None::<Seq<char>>)),
{
    let ghost before = components_view(r@);
    r.push((name.to_owned(), None));
    proof {
        assert(components_view(r@) =~= before.push((name@, None::<Seq<char>>)));
    }
}

/// Lists the modelled components present on an entity.
fn well_known_components(entity: &EntityData) -> (r: Vec<(String, Option<String>)>)
    ensures
        components_view(r@) == spec_attached_well_known(*entity),
{
    let mut r: Vec<(String, Option<String>)> = Vec::new();
    let ghost mut acc: Seq<(Seq<char>, Option<Seq<char>>)> = Seq::empty();
    proof {
        assert(components_view(r@) =~= acc);
    }
    if entity.transform.is_some() {
        push_marker(&mut r, transform_type_path());
        proof {
            acc = acc.push((spec_transform_type_path(), None::<Seq<char>>));
        }
    }
    if entity.global_transform.is_some() {
        push_marker(&mut r, global_transform_type_path());
        proof {
            acc = acc.push((spec_global_transform_type_path(), None::<Seq<char>>));
        }
    }
    if entity.aabb.is_some() {
        push_marker(&mut r, aabb_type_path());
        proof {
            acc = acc.push((spec_aabb_type_path(), None::<Seq<char>>));
        }
    }
    if entity.mesh2d.is_some() {
        push_marker(&mut r, mesh2d_type_path());
        proof {
            acc = acc.push((spec_mesh2d_type_path(), None::<Seq<char>>));
        }
    }
    if entity.mesh3d.is_some() {
        push_marker(&mut r, mesh3d_type_path());
        proof {
            acc = acc.push((spec_mesh3d_type_path(), None::<Seq<char>>));
        }
    }
    if entity.projection.is_some() {
        push_marker(&mut r, projection_type_path());
        proof {
            acc = acc.push((spec_projection_type_path(), None::<Seq<char>>));
        }
    }
    if entity.sprite.is_some() {
        push_marker(&mut r, sprite_type_path());
        proof {
            acc = acc.push((spec_sprite_type_path(), None::<Seq<char>>));
        }
    }
    if entity.parent.is_some() {
        push_marker(&mut r, child_of_type_path());
        proof {
            acc = acc.push((spec_child_of_type_path(), None::<Seq<char>>));
        }
    }
    if entity.children.is_some() {
        push_marker(&mut r, children_type_path());
        proof {
            acc = acc.push((spec_children_type_path(), None::<Seq<char>>));
        }
    }
    if entity.path_override.is_some() {
        push_marker(&mut r, entity_path_type_path());
        proof {
            acc = acc.push((spec_entity_path_type_path(), None::<Seq<char>>));
        }
    }
    proof {
        assert(components_view(r@) == acc);
        assert(acc == spec_attached_well_known(*entity));
    }
    r
}

/// Lists the attached components of an entity, as [`spec_attached`] says.
pub fn attached_components(entity: &EntityData) -> (r: Vec<(String, Option<String>)>)
    ensures
        components_view(r@) == spec_attached(*entity),
{
    let mut r = well_known_components(entity);
    let ghost fixed = components_view(r@);
    let mut i: usize = 0;
    while i < entity.others.len()
        invariant
            i <= entity.others@.len(),
            components_view(r@) =~= fixed + entity.others@.take(i as int).map_values(
                |d: crate::world::DynComponent| (d.type_path@, spec_opt_view(d.reflected)),
            ),
        decreases entity.others@.len() - i,
    {
        let ghost before = components_view(r@);
        let d = &entity.others[i];
        let reflected: Option<String> = match &d.reflected {
            Some(s) => Some(s.clone()),
            None => None,
        };
        r.push((d.type_path.clone(), reflected));
        proof {
            assert(components_view(r@) =~= before.push(
                (entity.others@[i as int].type_path@, spec_opt_view(
                    entity.others@[i as int].reflected,
                )),
            ));
            assert(entity.others@.take(i + 1) =~= entity.others@.take(i as int).push(
                entity.others@[i as int],
            ));
            assert(entity.others@.take(i + 1).map_values(
                |d: crate::world::DynComponent| (d.type_path@, spec_opt_view(d.reflected)),
            ) =~= entity.others@.take(i as int).map_values(
                |d: crate::world::DynComponent| (d.type_path@, spec_opt_view(d.reflected)),
            ).push((entity.others@[i as int].type_path@, spec_opt_view(
                entity.others@[i as int].reflected,
            ))));
        }
        i = i + 1;
    }
    proof {
        assert(entity.others@.take(entity.others@.len() as int) =~= entity.others@);
        assert(components_view(r@) =~= spec_attached(*entity));
    }
    r
}

/// The suffix and batches one built-in logger yields for one component of
/// one entity. The deferred `Custom` logger yields nothing here; the sync
/// driver hands it back instead.
pub open spec fn spec_run_logger(
    k: RerunLogger,
    w: Seq<EntityData>,
    e: EntityData,
    component: Seq<char>,
    reflected: Option<Seq<char>>,
) -> (Option<Seq<char>>, Seq<BatchModel>) {
    match k {
        RerunLogger::Transform => (None, spec_transform_logger_batches(e)),
        RerunLogger::GlobalTransform => (None, spec_global_transform_logger_batches(e)),
        RerunLogger::Aabb => (Some(spec_suffix_aabb()), spec_aabb_logger_batches(e)),
        RerunLogger::ChildOf => (None, spec_child_of_logger_batches(w, e)),
        RerunLogger::Children => (None, spec_children_logger_batches(w, e)),
        RerunLogger::Mesh2d => (Some(spec_suffix_mesh2d()), spec_mesh2d_logger_batches(e)),
        RerunLogger::Mesh3d => (Some(spec_suffix_mesh3d()), spec_mesh3d_logger_batches(e)),
        RerunLogger::Camera => (Some(spec_suffix_cam()), spec_camera_logger_batches(e)),
        RerunLogger::Sprite => (Some(spec_suffix_sprite()), spec_sprite_logger_batches(e)),
        RerunLogger::Text => (None, spec_ignored_component_batches(component, reflected)),
        RerunLogger::Custom(_) => (None, Seq::empty()),
    }
}

/// Runs one built-in logger. A deferred `Custom` logger yields nothing: the
/// sync driver hands such components back instead of running anything.
pub fn run_logger(
    k: RerunLogger,
    world: &WorldSnapshot,
    entity: &EntityData,
    component: &String,
    reflected: &Option<String>,
) -> (r: (Option<&'static str>, Vec<SerializedBatch>))
    ensures
        (spec_opt_view(r.0), batches_view(r.1@)) == spec_run_logger(
            k,
            world.entities@,
            *entity,
            component@,
            spec_opt_view(*reflected),
        ),
{
    match k {
        RerunLogger::Transform => bevy_transform(world, entity),
        RerunLogger::GlobalTransform => bevy_global_transform(world, entity),
        RerunLogger::Aabb => bevy_aabb(world, entity),
        RerunLogger::ChildOf => bevy_child_of(world, entity),
        RerunLogger::Children => bevy_children(world, entity),
        RerunLogger::Mesh2d => bevy_mesh2d(world, entity),
        RerunLogger::Mesh3d => bevy_mesh3d(world, entity),
        RerunLogger::Camera => bevy_camera(world, entity),
        RerunLogger::Sprite => bevy_sprite(world, entity),
        RerunLogger::Text => log_ignored_component(component, reflected),
        RerunLogger::Custom(_) => {
            let batches: Vec<SerializedBatch> = Vec::new();
            proof {
                assert(batches_view(batches@) =~= Seq::<BatchModel>::empty());
            }
            (None, batches)
        },
    }
}

/// The items one component of one entity contributes to a tick: nothing
/// when its logger entry is `None` (suppressed) or its logger yields no
/// batches; a deferred item when its logger is application-registered; one
/// message otherwise.
pub open spec fn spec_component_items(
    w: Seq<EntityData>,
    e: EntityData,
    session: Option<Map<Seq<char>, Option<RerunLogger>>>,
    defaults: Map<Seq<char>, Option<RerunLogger>>,
    time: u64,
    component: Seq<char>,
    reflected: Option<Seq<char>>,
) -> Seq<SyncItemModel> {
    match spec_get_component_logger(component, session, defaults) {
        None => Seq::empty(),
        Some(k) => match k {
            RerunLogger::Custom(id) => seq![
                (SyncItemModel::Custom { logger: id, entity: e.id, component }),
            ],
            _ => {
                let (suffix, batches) = spec_run_logger(k, w, e, component, reflected);
                if batches.len() == 0 {
                    Seq::empty()
                } else {
                    seq![
                        (SyncItemModel::Message(
                            LogMessageModel {
                                entity_path: spec_path_string(w, e.id),
                                suffix,
                                time,
                                batches,
                            },
                        )),
                    ]
                }
            },
        },
    }
}

/// Suppression is total: a component whose resolved logger entry is `None`
/// — a session `None` wins over any default — contributes nothing to the
/// tick, whatever the entity carries.
pub proof fn lemma_suppressed_component_contributes_nothing(
    w: Seq<EntityData>,
    e: EntityData,
    session: Map<Seq<char>, Option<RerunLogger>>,
    defaults: Map<Seq<char>, Option<RerunLogger>>,
    time: u64,
    component: Seq<char>,
    reflected: Option<Seq<char>>,
)
    requires
        session.contains_key(component),
        session[component] is None,
    ensures
        spec_component_items(w, e, Some(session), defaults, time, component, reflected)
            == Seq::<SyncItemModel>::empty(),
{
    lemma_session_none_suppresses(component, session, defaults);
}

/// A component type absent from both tables always contributes exactly one
/// message, holding one text batch tagged with the type's own normalized
/// name — the generic fallback never stays silent and never fails.
pub proof fn lemma_unregistered_component_contributes_one_text_message(
    w: Seq<EntityData>,
    e: EntityData,
    session: Option<Map<Seq<char>, Option<RerunLogger>>>,
    defaults: Map<Seq<char>, Option<RerunLogger>>,
    time: u64,
    component: Seq<char>,
    reflected: Option<Seq<char>>,
)
    requires
        session is Some ==> !session.unwrap().contains_key(component),
        !defaults.contains_key(component),
    ensures
        spec_component_items(w, e, session, defaults, time, component, reflected) == seq![
            (SyncItemModel::Message(
                LogMessageModel {
                    entity_path: spec_path_string(w, e.id),
                    suffix: None,
                    time,
                    batches: spec_ignored_component_batches(component, reflected),
                },
            )),
        ],
{
    lemma_absent_resolves_to_fallback(component, session, defaults);
}

/// The items of one entity: its components' items, in attachment order.
pub open spec fn spec_items_for_components(
    w: Seq<EntityData>,
    e: EntityData,
    session: Option<Map<Seq<char>, Option<RerunLogger>>>,
    defaults: Map<Seq<char>, Option<RerunLogger>>,
    time: u64,
    comps: Seq<(Seq<char>, Option<Seq<char>>)>,
) -> Seq<SyncItemModel>
    decreases comps.len(),
{
    if comps.len() == 0 {
        Seq::empty()
    } else {
        spec_items_for_components(w, e, session, defaults, time, comps.drop_last())
            + spec_component_items(
            w,
            e,
            session,
            defaults,
            time,
            comps.last().0,
            comps.last().1,
        )
    }
}

/// The items of one entity.
pub open spec fn spec_entity_items(
    w: Seq<EntityData>,
    e: EntityData,
    session: Option<Map<Seq<char>, Option<RerunLogger>>>,
    defaults: Map<Seq<char>, Option<RerunLogger>>,
    time: u64,
) -> Seq<SyncItemModel> {
    spec_items_for_components(w, e, session, defaults, time, spec_attached(e))
}

/// The items of a list of entities, in order.
pub open spec fn spec_items_for_entities(
    w: Seq<EntityData>,
    es: Seq<EntityData>,
    session: Option<Map<Seq<char>, Option<RerunLogger>>>,
    defaults: Map<Seq<char>, Option<RerunLogger>>,
    time: u64,
) -> Seq<SyncItemModel>
    decreases es.len(),
{
    if es.len() == 0 {
        Seq::empty()
    } else {
        spec_items_for_entities(w, es.drop_last(), session, defaults, time) + spec_entity_items(
            w,
            es.last(),
            session,
            defaults,
            time,
        )
    }
}

/// Everything one tick logs, in entity order then component order.
pub open spec fn spec_sync(
    w: Seq<EntityData>,
    session: Option<Map<Seq<char>, Option<RerunLogger>>>,
    defaults: Map<Seq<char>, Option<RerunLogger>>,
    time: u64,
) -> Seq<SyncItemModel> {
    spec_items_for_entities(w, w, session, defaults, time)
}

/// Runs one tick: walks every entity and every attached component, resolves
/// a logger per component — session table, default table, text fallback —
/// and collects the resulting batches as messages keyed by resolved entity
/// path and suffix at the given logical time. Components an
/// application-registered logger claims come back as deferred items.
pub fn sync_world(
    world: &WorldSnapshot,
    loggers: Option<&RerunComponentLoggers>,
    default_loggers: &DefaultRerunComponentLoggers,
    time: u64,
) -> (r: Vec<SyncItem>)
    ensures
        sync_items_view(r@) == spec_sync(
            world.entities@,
            spec_session_view(loggers),
            default_loggers@,
            time,
        ),
{
    let ghost w = world.entities@;
    let ghost session = spec_session_view(loggers);
    let ghost defaults = default_loggers@;
    let mut out: Vec<SyncItem> = Vec::new();
    let mut ei: usize = 0;
    proof {
        assert(sync_items_view(out@) =~= spec_items_for_entities(
            w,
            w.take(0),
            session,
            defaults,
            time,
        ));
    }
    while ei < world.entities.len()
        invariant
            ei <= w.len(),
            w == world.entities@,
            session == spec_session_view(loggers),
            defaults == default_loggers@,
            sync_items_view(out@) =~= spec_items_for_entities(
                w,
                w.take(ei as int),
                session,
                defaults,
                time,
            ),
        decreases w.len() - ei,
    {
        let entity = &world.entities[ei];
        let comps = attached_components(entity);
        let path = compute_entity_path(world, entity.id);
        let ghost entity_base = sync_items_view(out@);
        let mut ci: usize = 0;
        proof {
            assert(spec_attached(*entity).take(0) =~= Seq::<
                (Seq<char>, Option<Seq<char>>),
            >::empty());
        }
        while ci < comps.len()
            invariant
                ci <= comps@.len(),
                w == world.entities@,
                session == spec_session_view(loggers),
                defaults == default_loggers@,
                components_view(comps@) == spec_attached(*entity),
                comps@.len() == spec_attached(*entity).len(),
                path@ == spec_path_string(w, entity.id),
                sync_items_view(out@) =~= entity_base + spec_items_for_components(
                    w,
                    *entity,
                    session,
                    defaults,
                    time,
                    spec_attached(*entity).take(ci as int),
                ),
            decreases comps@.len() - ci,
        {
            let ghost attached = spec_attached(*entity);
            let ghost before = sync_items_view(out@);
            proof {
                assert(attached[ci as int] == components_view(comps@)[ci as int]);
                assert(attached[ci as int].0 == comps@[ci as int].0@);
                assert(attached[ci as int].1 == spec_opt_view(comps@[ci as int].1));
                assert(attached.take(ci + 1).drop_last() =~= attached.take(ci as int));
                assert(attached.take(ci + 1).last() == attached[ci as int]);
            }
            let component = &comps[ci].0;
            let reflected = &comps[ci].1;
            match get_component_logger(component, loggers, default_loggers) {
                None => {},
                Some(k) => {
                    match k {
                        RerunLogger::Custom(id) => {
                            out.push(
                                SyncItem::Custom {
                                    logger: id,
                                    entity: entity.id,
                                    component: component.clone(),
                                },
                            );
                            proof {
                                assert(sync_items_view(out@) =~= before + spec_component_items(
                                    w,
                                    *entity,
                                    session,
                                    defaults,
                                    time,
                                    attached[ci as int].0,
                                    attached[ci as int].1,
                                ));
                            }
                        },
                        _ => {
                            let (suffix, batches) = run_logger(
                                k,
                                world,
                                entity,
                                component,
                                reflected,
                            );
                            if batches.len() > 0 {
                                let suffix_owned: Option<String> = match suffix {
                                    Some(s) => Some(s.to_owned()),
                                    None => None,
                                };
                                out.push(
                                    SyncItem::Message(
                                        LogMessage {
                                            entity_path: path.clone(),
                                            suffix: suffix_owned,
                                            time,
                                            batches,
                                        },
                                    ),
                                );
                                proof {
                                    assert(sync_items_view(out@) =~= before + spec_component_items(
                                        w,
                                        *entity,
                                        session,
                                        defaults,
                                        time,
                                        attached[ci as int].0,
                                        attached[ci as int].1,
                                    ));
                                }
                            } else {
                                proof {
                                    assert(spec_component_items(
                                        w,
                                        *entity,
                                        session,
                                        defaults,
                                        time,
                                        attached[ci as int].0,
                                        attached[ci as int].1,
                                    ) =~= Seq::<SyncItemModel>::empty());
                                }
                            }
                        },
                    }
                },
            }
            proof {
                assert(sync_items_view(out@) =~= entity_base + spec_items_for_components(
                    w,
                    *entity,
                    session,
                    defaults,
                    time,
                    attached.take(ci + 1),
                ));
            }
            ci = ci + 1;
        }
        proof {
            assert(spec_attached(*entity).take(spec_attached(*entity).len() as int)
                =~= spec_attached(*entity));
            assert(w.take(ei + 1).drop_last() =~= w.take(ei as int));
            assert(w.take(ei + 1).last() == w[ei as int]);
        }
        ei = ei + 1;
    }
    proof {
        assert(w.take(w.len() as int) =~= w);
    }
    out
}

} // verus!
