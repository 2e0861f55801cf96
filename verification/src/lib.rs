//! Verified core of a compositor toolkit: input grabs, focus tracking,
//! pipeline caching, accessibility state, damage history and the plain
//! data types that the scene graph exchanges.

pub mod paint_node;
pub mod paint_nodes;
pub mod pipeline_cache;
pub mod grab;
pub mod accessibility;
pub mod damage_history;
pub mod keyval;
pub mod input_device;
pub mod input_device_tool;
pub mod actor;
pub mod actor_tree;
pub mod actor_meta;
pub mod constraint;
pub mod effect;
pub mod enums;
pub mod action;
pub mod seq_set;
pub mod content;
pub mod layout_manager;
pub mod layout_meta;
pub mod event;
pub mod backend;
pub mod paint_context;
pub mod color_state;
pub mod context;
pub mod cursor;
pub mod flow_layout;
pub mod grid_layout;
pub mod frame;
pub mod frame_clock;
pub mod motion_controller;
pub mod clutter_main;
pub mod pick_context;
pub mod pick_stack;
pub mod viewport_info;
pub mod virtual_input_device_native;
pub mod virtual_monitor_native;
pub mod virtual_monitor;
pub mod bin_layout;
pub mod fixed_layout;
pub mod box_layout;
pub mod easing;
pub mod focus;
pub mod key_focus;
pub mod keymap;
pub mod input_focus;
pub mod text;
pub mod udev;
pub mod interval_progress;
pub mod color_manager;
pub mod clone;
